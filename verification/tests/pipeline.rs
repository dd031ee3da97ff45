use vault_mvp::accrual::accrue_management_fees;
use vault_mvp::deposit::deposit;
use vault_mvp::errors::ErrorCode;
use vault_mvp::factory::initialize_factory;
use vault_mvp::redeem::finalize_redeem;
use vault_mvp::state::{AccountId, Factory, FactoryState, UnderlyingAsset, Vault, VaultState};
use vault_mvp::vault::{create_vault, set_vault_paused};

fn aid(n: u64) -> AccountId {
    AccountId { hi: n as u128, lo: (n as u128) << 1 }
}

const VAULT_ADDR: u64 = 51;
const USER: u64 = 9;
const STABLE_MINT: u64 = 200;

fn setup(entry_bps: u16, exit_bps: u16, management_bps: u16) -> (Factory, Vault) {
    let mut factory =
        initialize_factory(aid(1), aid(2), entry_bps, exit_bps, 10_000_000, 50, 300, 7_000, 3_000, 0)
            .unwrap()
            .0;
    let vault = create_vault(
        &mut factory,
        aid(50),
        aid(VAULT_ADDR),
        aid(3),
        "Test Fund".to_string(),
        "TF".to_string(),
        vec![
            UnderlyingAsset { mint_address: aid(100), mint_bps: 6_000 },
            UnderlyingAsset { mint_address: aid(101), mint_bps: 4_000 },
        ],
        management_bps,
        String::new(),
        1_000,
    )
    .unwrap()
    .vault;
    (factory, vault)
}

#[test]
fn deposit_then_redeem_scenario_is_exact() {
    // Entry and exit fees at 25 bps, management fee 100 bps, six decimals,
    // share price one settlement unit per share.
    let (factory, mut vault) = setup(25, 25, 100);
    let supply_before = vault.total_supply;

    let out = deposit(
        &mut vault,
        &factory,
        aid(VAULT_ADDR),
        aid(USER),
        aid(STABLE_MINT),
        1_000_000_000,
        1_000_000,
        6,
        1_000,
    )
    .unwrap();
    assert_eq!(out.entry_fee, 2_500_000);
    assert_eq!(out.net_deposit, 997_500_000);
    assert_eq!(out.vault_tokens_minted, 997_500_000);
    assert_eq!(vault.total_assets, 997_500_000);
    assert_eq!(vault.total_supply, supply_before + 997_500_000);
    assert_eq!(out.event.vault, aid(VAULT_ADDR));
    assert_eq!(out.event.user, aid(USER));
    assert_eq!(out.event.stablecoin_mint, aid(STABLE_MINT));
    assert_eq!(out.event.amount, 1_000_000_000);
    assert_eq!(out.event.entry_fee, 2_500_000);
    assert_eq!(out.event.vault_tokens_minted, 997_500_000);
    assert_eq!(out.event.timestamp, 1_000);

    // Redeem every minted share immediately at the same price.
    let redeemed = finalize_redeem(
        &mut vault,
        &factory,
        aid(VAULT_ADDR),
        aid(USER),
        aid(STABLE_MINT),
        997_500_000,
        1_000_000,
        997_500_000,
        997_500_000,
        6,
        1_000,
    )
    .unwrap();
    assert_eq!(redeemed.vault_tokens_burned, 997_500_000);
    assert_eq!(redeemed.exit_fee, 2_493_750);
    assert_eq!(redeemed.net_to_user, 995_006_250);
    assert_eq!(vault.total_assets, 0);
    assert_eq!(vault.total_supply, supply_before);
    assert_eq!(redeemed.event.stablecoin_amount_redeemed, 995_006_250);
    assert_eq!(redeemed.event.exit_fee, 2_493_750);

    // Round trip never returns more than was put in, net of both fees.
    assert!(redeemed.net_to_user <= 1_000_000_000 - out.entry_fee - redeemed.exit_fee);
}

#[test]
fn deposit_rejects_zero_amount_and_inactive_parties() {
    let (factory, mut vault) = setup(25, 25, 100);
    let before_assets = vault.total_assets;

    let r = deposit(&mut vault, &factory, aid(VAULT_ADDR), aid(USER), aid(STABLE_MINT), 0, 1, 6, 1_000);
    assert_eq!(r.unwrap_err(), ErrorCode::InvalidAmount);

    let mut paused_factory = factory;
    paused_factory.state = FactoryState::Paused;
    let r = deposit(
        &mut vault,
        &paused_factory,
        aid(VAULT_ADDR),
        aid(USER),
        aid(STABLE_MINT),
        5,
        1,
        6,
        1_000,
    );
    assert_eq!(r.unwrap_err(), ErrorCode::FactoryNotActive);
    assert_eq!(vault.total_assets, before_assets);
}

#[test]
fn pause_gate_blocks_and_resume_restores() {
    let (factory, mut vault) = setup(25, 25, 100);

    set_vault_paused(&mut vault, &factory, aid(1), aid(VAULT_ADDR), true, 1_000).unwrap();
    let r = deposit(
        &mut vault,
        &factory,
        aid(VAULT_ADDR),
        aid(USER),
        aid(STABLE_MINT),
        1_000_000,
        1_000_000,
        6,
        1_000,
    );
    assert_eq!(r.unwrap_err(), ErrorCode::VaultNotActive);
    let r = finalize_redeem(
        &mut vault,
        &factory,
        aid(VAULT_ADDR),
        aid(USER),
        aid(STABLE_MINT),
        1,
        1_000_000,
        10,
        10,
        6,
        1_000,
    );
    assert_eq!(r.unwrap_err(), ErrorCode::VaultNotActive);

    // After resuming, the identical deposit succeeds.
    set_vault_paused(&mut vault, &factory, aid(1), aid(VAULT_ADDR), false, 1_000).unwrap();
    let out = deposit(
        &mut vault,
        &factory,
        aid(VAULT_ADDR),
        aid(USER),
        aid(STABLE_MINT),
        1_000_000,
        1_000_000,
        6,
        1_000,
    )
    .unwrap();
    assert_eq!(out.net_deposit, 997_500);
    // And the identical redemption of those shares succeeds too.
    let redeemed = finalize_redeem(
        &mut vault,
        &factory,
        aid(VAULT_ADDR),
        aid(USER),
        aid(STABLE_MINT),
        out.vault_tokens_minted,
        1_000_000,
        out.vault_tokens_minted,
        out.net_deposit,
        6,
        1_000,
    )
    .unwrap();
    assert!(redeemed.net_to_user <= out.net_deposit);
}

#[test]
fn redeem_rejects_shortfalls_in_order() {
    let (factory, mut vault) = setup(25, 25, 100);
    deposit(
        &mut vault,
        &factory,
        aid(VAULT_ADDR),
        aid(USER),
        aid(STABLE_MINT),
        1_000_000_000,
        1_000_000,
        6,
        1_000,
    )
    .unwrap();

    let r = finalize_redeem(
        &mut vault,
        &factory,
        aid(VAULT_ADDR),
        aid(USER),
        aid(STABLE_MINT),
        0,
        1_000_000,
        997_500_000,
        997_500_000,
        6,
        1_000,
    );
    assert_eq!(r.unwrap_err(), ErrorCode::InvalidAmount);

    // The redeemer holds fewer shares than requested.
    let r = finalize_redeem(
        &mut vault,
        &factory,
        aid(VAULT_ADDR),
        aid(USER),
        aid(STABLE_MINT),
        997_500_001,
        1_000_000,
        997_500_000,
        997_500_000,
        6,
        1_000,
    );
    assert_eq!(r.unwrap_err(), ErrorCode::InsufficientVaultTokens);

    // Vault custody cannot cover the net payout: a hard stop.
    let r = finalize_redeem(
        &mut vault,
        &factory,
        aid(VAULT_ADDR),
        aid(USER),
        aid(STABLE_MINT),
        997_500_000,
        1_000_000,
        997_500_000,
        995_006_249,
        6,
        1_000,
    );
    assert_eq!(r.unwrap_err(), ErrorCode::InsufficientFunds);

    // Nothing was settled by the rejected attempts.
    assert_eq!(vault.total_assets, 997_500_000);
}

#[test]
fn redeem_rejects_empty_supply() {
    let (factory, mut vault) = setup(25, 25, 100);
    vault.total_supply = 0;
    let r = finalize_redeem(
        &mut vault,
        &factory,
        aid(VAULT_ADDR),
        aid(USER),
        aid(STABLE_MINT),
        5,
        1_000_000,
        10,
        10,
        6,
        1_000,
    );
    assert_eq!(r.unwrap_err(), ErrorCode::InvalidAmount);
}

#[test]
fn accrual_moves_fees_out_of_assets_over_time() {
    // 100 bps on 1,000,000,000,000 over exactly one year accrues exactly 1%.
    let (_, mut vault) = setup(25, 25, 100);
    vault.total_assets = 1_000_000_000_000;
    vault.last_fee_accrual_ts = 1_000;

    accrue_management_fees(&mut vault, 1_000 + 31_536_000).unwrap();
    assert_eq!(vault.accrued_management_fees_usdc, 10_000_000_000);
    assert_eq!(vault.total_assets, 1_000_000_000_000 - 10_000_000_000);
    assert_eq!(vault.last_fee_accrual_ts, 1_000 + 31_536_000);
}

#[test]
fn accrual_is_idempotent_within_one_instant() {
    let (_, mut vault) = setup(25, 25, 100);
    vault.total_assets = 1_000_000_000_000;
    vault.last_fee_accrual_ts = 1_000;

    accrue_management_fees(&mut vault, 500_000).unwrap();
    let snapshot = (
        vault.total_assets,
        vault.accrued_management_fees_usdc,
        vault.last_fee_accrual_ts,
    );
    // Accruing again with no elapsed time changes no state the second time.
    accrue_management_fees(&mut vault, 500_000).unwrap();
    assert_eq!(
        (vault.total_assets, vault.accrued_management_fees_usdc, vault.last_fee_accrual_ts),
        snapshot
    );
}

#[test]
fn accrual_advances_the_clock_even_when_the_fee_is_zero() {
    let (_, mut vault) = setup(25, 25, 100);
    vault.total_assets = 0;
    vault.last_fee_accrual_ts = 1_000;
    accrue_management_fees(&mut vault, 2_000).unwrap();
    assert_eq!(vault.accrued_management_fees_usdc, 0);
    assert_eq!(vault.last_fee_accrual_ts, 2_000);
    // A clock that has not moved past the last accrual is a no-op.
    accrue_management_fees(&mut vault, 1_500).unwrap();
    assert_eq!(vault.last_fee_accrual_ts, 2_000);
}

#[test]
fn deposit_accrues_before_pricing() {
    // One year passes between the first and second deposit; the second
    // deposit's prologue moves the owed fee out of the asset ledger first.
    let (factory, mut vault) = setup(0, 0, 100);
    deposit(
        &mut vault,
        &factory,
        aid(VAULT_ADDR),
        aid(USER),
        aid(STABLE_MINT),
        1_000_000_000_000,
        1_000_000,
        6,
        1_000,
    )
    .unwrap();
    assert_eq!(vault.total_assets, 1_000_000_000_000);

    deposit(
        &mut vault,
        &factory,
        aid(VAULT_ADDR),
        aid(USER),
        aid(STABLE_MINT),
        500,
        1_000_000,
        6,
        1_000 + 31_536_000,
    )
    .unwrap();
    assert_eq!(vault.accrued_management_fees_usdc, 10_000_000_000);
    assert_eq!(vault.total_assets, 1_000_000_000_000 - 10_000_000_000 + 500);
    assert_eq!(vault.last_fee_accrual_ts, 1_000 + 31_536_000);
}

#[test]
fn accrual_clamps_assets_at_zero_when_the_fee_exceeds_them() {
    // A century of 20% annual fees on a dust balance: the owed fee exceeds
    // the ledger, which clamps at zero rather than underflowing, while the
    // tracker still records the full owed fee.
    let (_, mut vault) = setup(25, 25, 100);
    vault.management_fees = 2_000;
    vault.total_assets = 100;
    vault.last_fee_accrual_ts = 0;
    accrue_management_fees(&mut vault, 100 * 31_536_000).unwrap();
    assert_eq!(vault.total_assets, 0);
    assert_eq!(vault.accrued_management_fees_usdc, 2_000);
}

#[test]
fn error_codes_carry_their_messages() {
    assert_eq!(ErrorCode::FeesTooHigh.message(), "Fees are too high");
    assert_eq!(ErrorCode::InvalidBpsSum.message(), "Invalid BPS sum - must equal 10000 (100%)");
    assert_eq!(ErrorCode::VaultNotActive.message(), "Vault is not active");
    assert_eq!(ErrorCode::Unauthorized.message(), "Unauthorized access");
    assert_eq!(ErrorCode::InvalidMetadataProgram.message(), "Invalid metadata program");
}

#[test]
fn closed_vault_rejects_value_movement() {
    let (factory, mut vault) = setup(25, 25, 100);
    vault.state = VaultState::Closed;
    let r = deposit(&mut vault, &factory, aid(VAULT_ADDR), aid(USER), aid(STABLE_MINT), 5, 1, 6, 1_000);
    assert_eq!(r.unwrap_err(), ErrorCode::VaultNotActive);
}
