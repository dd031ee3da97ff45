use vault_mvp::constants::{token_2022_program_id, token_program_id};
use vault_mvp::errors::ErrorCode;
use vault_mvp::factory::initialize_factory;
use vault_mvp::state::{AccountId, Factory, TokenBalance, UnderlyingAsset, Vault, VaultState};
use vault_mvp::vault::{
    create_vault, execute_swaps, get_deposit_details, get_vault_fees, set_vault_paused,
    transfer_vault_to_user, withdraw_underlying_to_user, VaultStateChange,
};

fn aid(n: u64) -> AccountId {
    AccountId { hi: n as u128, lo: (n as u128) << 1 }
}

fn test_factory() -> Factory {
    initialize_factory(aid(1), aid(2), 25, 25, 10_000_000, 50, 300, 7_000, 3_000, 0)
        .unwrap()
        .0
}

fn two_assets() -> Vec<UnderlyingAsset> {
    vec![
        UnderlyingAsset { mint_address: aid(100), mint_bps: 6_000 },
        UnderlyingAsset { mint_address: aid(101), mint_bps: 4_000 },
    ]
}

fn created_vault(factory: &mut Factory) -> Vault {
    create_vault(
        factory,
        aid(50),
        aid(51),
        aid(3),
        "Test Fund".to_string(),
        "TF".to_string(),
        two_assets(),
        100,
        "ipfs://metadata".to_string(),
        1_000,
    )
    .unwrap()
    .vault
}

#[test]
fn create_vault_builds_a_seeded_active_vault() {
    let mut factory = test_factory();
    let out = create_vault(
        &mut factory,
        aid(50),
        aid(51),
        aid(3),
        "Test Fund".to_string(),
        "TF".to_string(),
        two_assets(),
        100,
        "ipfs://metadata".to_string(),
        1_000,
    )
    .unwrap();
    assert_eq!(factory.vault_count, 1);
    let v = &out.vault;
    assert_eq!(v.vault_index, 0);
    assert_eq!(v.factory, aid(50));
    assert_eq!(v.admin, aid(3));
    assert_eq!(v.vault_name, "Test Fund");
    assert_eq!(v.vault_symbol, "TF");
    assert_eq!(v.underlying_assets, two_assets());
    assert_eq!(v.management_fees, 100);
    assert_eq!(v.state, VaultState::Active);
    assert_eq!(v.total_assets, 0);
    assert_eq!(v.total_supply, 1_000_000);
    assert_eq!(v.created_at, 1_000);
    assert_eq!(v.last_fee_accrual_ts, 1_000);
    assert_eq!(v.accrued_management_fees_usdc, 0);
    assert_eq!(out.creation_fee_usdc, 10_000_000);
    assert_eq!(out.seed_supply_minted, 1_000_000);
    assert_eq!(out.metadata_uri, "ipfs://metadata");
    assert_eq!(out.event.vault, aid(51));
    assert_eq!(out.event.vault_index, 0);
    assert_eq!(out.event.underlying_assets, two_assets());
    assert_eq!(out.event.timestamp, 1_000);
}

#[test]
fn create_vault_falls_back_to_default_creation_fee() {
    let mut factory =
        initialize_factory(aid(1), aid(2), 25, 25, 0, 50, 300, 7_000, 3_000, 0).unwrap().0;
    let out = create_vault(
        &mut factory,
        aid(50),
        aid(51),
        aid(3),
        "F".to_string(),
        "F".to_string(),
        two_assets(),
        100,
        String::new(),
        0,
    )
    .unwrap();
    assert_eq!(out.creation_fee_usdc, 10_000_000);
}

#[test]
fn create_vault_indexes_count_up() {
    let mut factory = test_factory();
    let v0 = created_vault(&mut factory);
    let v1 = created_vault(&mut factory);
    assert_eq!(v0.vault_index, 0);
    assert_eq!(v1.vault_index, 1);
    assert_eq!(factory.vault_count, 2);
}

#[test]
fn create_vault_rejects_long_name_and_symbol() {
    let mut factory = test_factory();
    let before = factory;
    let r = create_vault(
        &mut factory,
        aid(50),
        aid(51),
        aid(3),
        "x".repeat(51),
        "TF".to_string(),
        two_assets(),
        100,
        String::new(),
        0,
    );
    assert_eq!(r.unwrap_err(), ErrorCode::VaultNameTooLong);
    let r = create_vault(
        &mut factory,
        aid(50),
        aid(51),
        aid(3),
        "ok".to_string(),
        "y".repeat(31),
        two_assets(),
        100,
        String::new(),
        0,
    );
    assert_eq!(r.unwrap_err(), ErrorCode::VaultSymbolTooLong);
    assert_eq!(factory, before);
}

#[test]
fn create_vault_rejects_bad_asset_counts() {
    let mut factory = test_factory();
    let r = create_vault(
        &mut factory,
        aid(50),
        aid(51),
        aid(3),
        "F".to_string(),
        "F".to_string(),
        vec![],
        100,
        String::new(),
        0,
    );
    assert_eq!(r.unwrap_err(), ErrorCode::InvalidUnderlyingAssets);
    let too_many: Vec<UnderlyingAsset> = (0..241)
        .map(|i| UnderlyingAsset { mint_address: aid(i), mint_bps: 0 })
        .collect();
    let r = create_vault(
        &mut factory,
        aid(50),
        aid(51),
        aid(3),
        "F".to_string(),
        "F".to_string(),
        too_many,
        100,
        String::new(),
        0,
    );
    assert_eq!(r.unwrap_err(), ErrorCode::InvalidUnderlyingAssets);
}

#[test]
fn create_vault_rejects_fees_outside_factory_bounds() {
    let mut factory = test_factory();
    for bad in [49u16, 301] {
        let r = create_vault(
            &mut factory,
            aid(50),
            aid(51),
            aid(3),
            "F".to_string(),
            "F".to_string(),
            two_assets(),
            bad,
            String::new(),
            0,
        );
        assert_eq!(r.unwrap_err(), ErrorCode::InvalidManagementFees);
    }
}

#[test]
fn create_vault_rejects_allocations_not_summing_to_total() {
    let mut factory = test_factory();
    let short = vec![
        UnderlyingAsset { mint_address: aid(100), mint_bps: 6_000 },
        UnderlyingAsset { mint_address: aid(101), mint_bps: 3_999 },
    ];
    let r = create_vault(
        &mut factory,
        aid(50),
        aid(51),
        aid(3),
        "F".to_string(),
        "F".to_string(),
        short,
        100,
        String::new(),
        0,
    );
    assert_eq!(r.unwrap_err(), ErrorCode::InvalidBpsSum);
    assert_eq!(factory.vault_count, 0);
}

#[test]
fn calculate_space_is_affine_in_assets() {
    assert_eq!(Vault::calculate_space(1), 230);
    assert_eq!(Vault::calculate_space(2), 264);
    assert_eq!(Vault::calculate_space(240), 8_356);
}

#[test]
fn pause_resume_and_their_gates() {
    let mut factory = test_factory();
    let mut vault = created_vault(&mut factory);

    // Only the factory admin may toggle.
    let r = set_vault_paused(&mut vault, &factory, aid(3), aid(51), true, 5);
    assert_eq!(r.unwrap_err(), ErrorCode::Unauthorized);
    assert_eq!(vault.state, VaultState::Active);

    // Resuming an Active vault is a rejected transition.
    let r = set_vault_paused(&mut vault, &factory, aid(1), aid(51), false, 5);
    assert_eq!(r.unwrap_err(), ErrorCode::FactoryNotActive);

    // Pause emits an event.
    let change = set_vault_paused(&mut vault, &factory, aid(1), aid(51), true, 6).unwrap();
    assert_eq!(vault.state, VaultState::Paused);
    match change {
        Some(VaultStateChange::Paused(ev)) => {
            assert_eq!(ev.vault, aid(51));
            assert_eq!(ev.admin, aid(1));
            assert_eq!(ev.timestamp, 6);
        }
        other => panic!("expected a pause event, got {:?}", other),
    }

    // Re-pausing is an idempotent no-op.
    let change = set_vault_paused(&mut vault, &factory, aid(1), aid(51), true, 7).unwrap();
    assert!(change.is_none());
    assert_eq!(vault.state, VaultState::Paused);

    // Resume emits an event and reactivates.
    let change = set_vault_paused(&mut vault, &factory, aid(1), aid(51), false, 8).unwrap();
    assert_eq!(vault.state, VaultState::Active);
    match change {
        Some(VaultStateChange::Resumed(ev)) => {
            assert_eq!(ev.vault, aid(51));
            assert_eq!(ev.timestamp, 8);
        }
        other => panic!("expected a resume event, got {:?}", other),
    }
}

#[test]
fn closed_vault_cannot_be_paused() {
    let mut factory = test_factory();
    let mut vault = created_vault(&mut factory);
    vault.state = VaultState::Closed;
    let r = set_vault_paused(&mut vault, &factory, aid(1), aid(51), true, 9);
    assert_eq!(r.unwrap_err(), ErrorCode::VaultNotActive);
    assert_eq!(vault.state, VaultState::Closed);
}

#[test]
fn get_vault_fees_merges_factory_and_vault() {
    let mut factory = test_factory();
    let vault = created_vault(&mut factory);
    let fees = get_vault_fees(&factory, &vault);
    assert_eq!(fees.entry_fee_bps, 25);
    assert_eq!(fees.exit_fee_bps, 25);
    assert_eq!(fees.vault_creation_fee_usdc, 10_000_000);
    assert_eq!(fees.min_management_fee_bps, 50);
    assert_eq!(fees.max_management_fee_bps, 300);
    assert_eq!(fees.vault_management_fees, 100);
    assert_eq!(fees.vault_index, 0);
    assert_eq!(fees.vault_name, "Test Fund");
    assert_eq!(fees.vault_symbol, "TF");
    assert_eq!(fees.vault_admin, aid(3));
}

#[test]
fn get_deposit_details_checks_the_index() {
    let mut factory = test_factory();
    let vault = created_vault(&mut factory);
    let stable = TokenBalance { mint: aid(200), amount: 42 };
    let r = get_deposit_details(&vault, &factory, 1, aid(51), aid(9), 7, stable);
    assert_eq!(r.unwrap_err(), ErrorCode::VaultNotFound);
    let details = get_deposit_details(&vault, &factory, 0, aid(51), aid(9), 7, stable).unwrap();
    assert_eq!(details.vault_address, aid(51));
    assert_eq!(details.vault_index, 0);
    assert_eq!(details.vault_name, "Test Fund");
    assert_eq!(details.user_address, aid(9));
    assert_eq!(details.user_vault_token_balance, 7);
    assert_eq!(details.vault_total_assets, 0);
    assert_eq!(details.vault_total_supply, 1_000_000);
    assert_eq!(details.vault_stablecoin_balance, 42);
    assert_eq!(details.stablecoin_mint, aid(200));
    assert_eq!(details.vault_state, VaultState::Active);
    assert_eq!(details.created_at, 1_000);
}

#[test]
fn execute_swaps_gates_in_order() {
    let mut factory = test_factory();
    let mut vault = created_vault(&mut factory);
    // Vault admin and factory admin may both trigger; others may not.
    assert!(execute_swaps(&vault, &factory, aid(3), 500).is_ok());
    assert!(execute_swaps(&vault, &factory, aid(1), 500).is_ok());
    assert_eq!(
        execute_swaps(&vault, &factory, aid(9), 500).unwrap_err(),
        ErrorCode::Unauthorized
    );
    assert_eq!(
        execute_swaps(&vault, &factory, aid(3), 0).unwrap_err(),
        ErrorCode::InsufficientFunds
    );
    vault.state = VaultState::Paused;
    assert_eq!(
        execute_swaps(&vault, &factory, aid(3), 500).unwrap_err(),
        ErrorCode::VaultNotActive
    );
}

#[test]
fn transfer_vault_to_user_checks_custody() {
    let mut factory = test_factory();
    let vault = created_vault(&mut factory);
    assert_eq!(transfer_vault_to_user(&vault, &factory, aid(3), 400, 500), Ok(400));
    assert_eq!(
        transfer_vault_to_user(&vault, &factory, aid(3), 501, 500).unwrap_err(),
        ErrorCode::InsufficientFunds
    );
    assert_eq!(
        transfer_vault_to_user(&vault, &factory, aid(9), 400, 500).unwrap_err(),
        ErrorCode::Unauthorized
    );
}

#[test]
fn withdraw_underlying_accepts_only_the_two_token_programs() {
    let spl = token_program_id();
    let ext = token_2022_program_id();
    assert_eq!(withdraw_underlying_to_user(spl, spl, spl, 55, 9), Ok((55, 9)));
    assert_eq!(withdraw_underlying_to_user(ext, ext, ext, 55, 6), Ok((55, 6)));
    // An unknown program is rejected.
    assert_eq!(
        withdraw_underlying_to_user(aid(123), aid(123), aid(123), 55, 9).unwrap_err(),
        ErrorCode::InvalidAmount
    );
    // Accounts owned by the other program are rejected.
    assert_eq!(
        withdraw_underlying_to_user(spl, ext, spl, 55, 9).unwrap_err(),
        ErrorCode::InvalidAmount
    );
    assert_eq!(
        withdraw_underlying_to_user(spl, spl, ext, 55, 9).unwrap_err(),
        ErrorCode::InvalidAmount
    );
}
