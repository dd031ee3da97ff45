use vstd::prelude::*;
use crate::constants::{
    DEFAULT_VAULT_CREATION_FEE_USDC, MAX_ACCOUNT_SIZE, MAX_BPS, MAX_UNDERLYING_ASSETS,
    MAX_VAULT_NAME_LENGTH, MAX_VAULT_SYMBOL_LENGTH, MIN_UNDERLYING_ASSETS,
    spec_token_2022_program_id, spec_token_program_id, token_2022_program_id, token_program_id,
    VAULT_SEED_SUPPLY,
};
use crate::errors::ErrorCode;
use crate::events::{VaultCreated, VaultPaused, VaultResumed};
use crate::state::{
    sum_mint_bps, AccountId, DepositDetails, Factory, FactoryState, TokenBalance, UnderlyingAsset,
    Vault, VaultFees, VaultState,
};

verus! {

// Vault lifecycle: creation under the factory, the Active/Paused/Closed state
// machine gating all value-moving operations, read-only snapshots, and the
// validation gates for externally executed swaps and custody transfers.

/// Everything an accepted vault creation obliges the embedding to do: store
/// the new vault record, move `creation_fee_usdc` from the creator to the
/// factory admin, register `metadata_uri` with the metadata service once,
/// mint `seed_supply_minted` share tokens to the vault itself, and append the
/// event record.
#[derive(Clone, Debug)]
pub struct VaultCreationOutcome {
    pub vault: Vault,
    pub creation_fee_usdc: u64,
    pub seed_supply_minted: u64,
    pub metadata_uri: String,
    pub event: VaultCreated,
}

/// A vault configuration is accepted under this factory: bounded name and
/// symbol, a bounded non-empty asset list whose record fits the ledger's size
/// ceiling, a management fee within the factory's bounds, and target
/// allocations summing to exactly one hundred percent.
pub open spec fn create_vault_accepted(
    f: Factory,
    vault_name: Seq<char>,
    vault_symbol: Seq<char>,
    assets: Seq<UnderlyingAsset>,
    management_fees: u16,
) -> bool {
    &&& vault_name.len() <= MAX_VAULT_NAME_LENGTH
    &&& vault_symbol.len() <= MAX_VAULT_SYMBOL_LENGTH
    &&& MIN_UNDERLYING_ASSETS <= assets.len() <= MAX_UNDERLYING_ASSETS
    &&& Vault::spec_calculate_space(assets.len() as int) <= MAX_ACCOUNT_SIZE
    &&& Vault::spec_calculate_space(assets.len() as int) <= Vault::spec_calculate_space(
        MAX_UNDERLYING_ASSETS as int,
    )
    &&& f.min_management_fee_bps <= management_fees <= f.max_management_fee_bps
    &&& sum_mint_bps(assets) == MAX_BPS
}

/// The code a rejected vault creation is rejected with, following the order
/// the checks run in.
pub open spec fn create_vault_error(
    f: Factory,
    vault_name: Seq<char>,
    vault_symbol: Seq<char>,
    assets: Seq<UnderlyingAsset>,
    management_fees: u16,
) -> ErrorCode {
    if vault_name.len() > MAX_VAULT_NAME_LENGTH {
        ErrorCode::VaultNameTooLong
    } else if vault_symbol.len() > MAX_VAULT_SYMBOL_LENGTH {
        ErrorCode::VaultSymbolTooLong
    } else if assets.len() < MIN_UNDERLYING_ASSETS || assets.len() > MAX_UNDERLYING_ASSETS {
        ErrorCode::InvalidUnderlyingAssets
    } else if Vault::spec_calculate_space(assets.len() as int) > MAX_ACCOUNT_SIZE
        || Vault::spec_calculate_space(assets.len() as int) > Vault::spec_calculate_space(
        MAX_UNDERLYING_ASSETS as int,
    ) {
        ErrorCode::AccountTooLarge
    } else if management_fees < f.min_management_fee_bps || management_fees
        > f.max_management_fee_bps {
        ErrorCode::InvalidManagementFees
    } else {
        ErrorCode::InvalidBpsSum
    }
}

/// Sums the target allocations of `assets` in full precision.
fn total_mint_bps(assets: &Vec<UnderlyingAsset>) -> (total: u32)
    requires
        assets@.len() <= MAX_UNDERLYING_ASSETS,
    ensures
        total == sum_mint_bps(assets@),
{
    let mut total: u32 = 0;
    let mut i: usize = 0;
    while i < assets.len()
        invariant
            i <= assets@.len() <= MAX_UNDERLYING_ASSETS,
            total == sum_mint_bps(assets@.take(i as int)),
            total <= i * 0xFFFF,
        decreases assets@.len() - i,
    {
        proof {
            assert(assets@.take(i + 1).drop_last() =~= assets@.take(i as int));
            assert(assets@.take(i + 1).last() == assets@[i as int]);
        }
        total = total + (assets[i].mint_bps as u32);
        i = i + 1;
    }
    proof {
        assert(assets@.take(assets@.len() as int) =~= assets@);
    }
    total
}

/// Creates a vault under the factory: validates the configuration, takes the
/// next vault index, charges the one-time creation fee (falling back to the
/// default if the configured fee is zero), and returns the new Active vault
/// record seeded with `VAULT_SEED_SUPPLY` shares minted to itself.
///
/// Atomic: on rejection the factory is untouched. On acceptance only the
/// factory's vault counter has advanced.
pub fn create_vault(
    factory: &mut Factory,
    factory_address: AccountId,
    vault_address: AccountId,
    admin: AccountId,
    vault_name: String,
    vault_symbol: String,
    underlying_assets: Vec<UnderlyingAsset>,
    management_fees: u16,
    metadata_uri: String,
    now: i64,
) -> (r: Result<VaultCreationOutcome, ErrorCode>)
    requires
        old(factory).wf(),
        old(factory).vault_count < u32::MAX,
        now >= 0,
    ensures
        final(factory).wf(),
        r is Ok <==> create_vault_accepted(
            *old(factory),
            vault_name@,
            vault_symbol@,
            underlying_assets@,
            management_fees,
        ),
        r matches Err(e) ==> *final(factory) == *old(factory) && e == create_vault_error(
            *old(factory),
            vault_name@,
            vault_symbol@,
            underlying_assets@,
            management_fees,
        ),
        r matches Ok(out) ==> ({
            &&& *final(factory) == (Factory {
                vault_count: (old(factory).vault_count + 1) as u32,
                ..*old(factory)
            })
            &&& out.vault == (Vault {
                vault_index: old(factory).vault_count,
                factory: factory_address,
                admin,
                vault_name,
                vault_symbol,
                underlying_assets,
                management_fees,
                state: VaultState::Active,
                total_assets: 0u64,
                total_supply: VAULT_SEED_SUPPLY,
                created_at: now,
                last_fee_accrual_ts: now,
                accrued_management_fees_usdc: 0u64,
            })
            &&& out.vault.wf()
            &&& out.creation_fee_usdc == (if old(factory).vault_creation_fee_usdc == 0 {
                DEFAULT_VAULT_CREATION_FEE_USDC as int
            } else {
                old(factory).vault_creation_fee_usdc as int
            })
            &&& out.seed_supply_minted == VAULT_SEED_SUPPLY
            &&& out.metadata_uri == metadata_uri
            &&& out.event.vault == vault_address
            &&& out.event.factory == factory_address
            &&& out.event.admin == admin
            &&& out.event.vault_index == old(factory).vault_count
            &&& out.event.vault_name@ == vault_name@
            &&& out.event.vault_symbol@ == vault_symbol@
            &&& out.event.underlying_assets@ == underlying_assets@
            &&& out.event.management_fees == management_fees
            &&& out.event.timestamp == now
        }),
{
    if vault_name.unicode_len() > MAX_VAULT_NAME_LENGTH {
        return Err(ErrorCode::VaultNameTooLong);
    }
    if vault_symbol.unicode_len() > MAX_VAULT_SYMBOL_LENGTH {
        return Err(ErrorCode::VaultSymbolTooLong);
    }
    let num_assets = underlying_assets.len();
    if num_assets < MIN_UNDERLYING_ASSETS || num_assets > MAX_UNDERLYING_ASSETS {
        return Err(ErrorCode::InvalidUnderlyingAssets);
    }
    let required_space = Vault::calculate_space(num_assets);
    let allocated_space = Vault::calculate_space(MAX_UNDERLYING_ASSETS);
    if required_space > MAX_ACCOUNT_SIZE {
        return Err(ErrorCode::AccountTooLarge);
    }
    if required_space > allocated_space {
        return Err(ErrorCode::AccountTooLarge);
    }
    if management_fees < factory.min_management_fee_bps || management_fees
        > factory.max_management_fee_bps {
        return Err(ErrorCode::InvalidManagementFees);
    }
    if total_mint_bps(&underlying_assets) != MAX_BPS as u32 {
        return Err(ErrorCode::InvalidBpsSum);
    }
    let vault_index = factory.vault_count;
    factory.vault_count = factory.vault_count + 1;
    let creation_fee_usdc = if factory.vault_creation_fee_usdc == 0 {
        DEFAULT_VAULT_CREATION_FEE_USDC
    } else {
        factory.vault_creation_fee_usdc
    };
    let name_for_event = vault_name.clone();
    let symbol_for_event = vault_symbol.clone();
    let assets_for_event = clone_assets(&underlying_assets);
    let vault = Vault {
        vault_index,
        factory: factory_address,
        admin,
        vault_name,
        vault_symbol,
        underlying_assets,
        management_fees,
        state: VaultState::Active,
        total_assets: 0,
        total_supply: VAULT_SEED_SUPPLY,
        created_at: now,
        last_fee_accrual_ts: now,
        accrued_management_fees_usdc: 0,
    };
    let event = VaultCreated {
        vault: vault_address,
        factory: factory_address,
        admin,
        vault_index,
        vault_name: name_for_event,
        vault_symbol: symbol_for_event,
        underlying_assets: assets_for_event,
        management_fees,
        timestamp: now,
    };
    Ok(VaultCreationOutcome {
        vault,
        creation_fee_usdc,
        seed_supply_minted: VAULT_SEED_SUPPLY,
        metadata_uri,
        event,
    })
}

/// Copies an underlying-asset list, preserving its view.
fn clone_assets(assets: &Vec<UnderlyingAsset>) -> (copy_of: Vec<UnderlyingAsset>)
    ensures
        copy_of@ == assets@,
{
    let mut copy_of: Vec<UnderlyingAsset> = Vec::new();
    let mut i: usize = 0;
    while i < assets.len()
        invariant
            i <= assets@.len(),
            copy_of@ =~= assets@.take(i as int),
        decreases assets@.len() - i,
    {
        copy_of.push(assets[i]);
        i = i + 1;
    }
    proof {
        assert(assets@.take(assets@.len() as int) =~= assets@);
    }
    copy_of
}

/// One recorded vault state change: paused or resumed.
#[derive(Clone, Copy, Debug, PartialEq, Eq, Structural)]
pub enum VaultStateChange {
    Paused(VaultPaused),
    Resumed(VaultResumed),
}

/// Toggles the vault between Active and Paused; only the factory admin may
/// call. Pausing is permitted from any non-Closed state and is idempotent
/// (re-pausing an already-Paused vault is a no-op, not an error, and emits
/// nothing); resuming is permitted only from Paused. `Closed` is terminal.
pub fn set_vault_paused(
    vault: &mut Vault,
    factory: &Factory,
    caller: AccountId,
    vault_address: AccountId,
    paused: bool,
    now: i64,
) -> (r: Result<Option<VaultStateChange>, ErrorCode>)
    ensures
        r is Err ==> *final(vault) == *old(vault),
        caller != factory.admin ==> (r matches Err(e) && e == ErrorCode::Unauthorized),
        caller == factory.admin && paused ==> ({
            if old(vault).state is Closed {
                r matches Err(e) && e == ErrorCode::VaultNotActive && *final(vault) == *old(vault)
            } else if old(vault).state is Paused {
                r == Ok::<Option<VaultStateChange>, ErrorCode>(None) && *final(vault) == *old(
                    vault,
                )
            } else {
                &&& *final(vault) == (Vault { state: VaultState::Paused, ..*old(vault) })
                &&& r == Ok::<Option<VaultStateChange>, ErrorCode>(
                    Some(
                        VaultStateChange::Paused(
                            VaultPaused { vault: vault_address, admin: caller, timestamp: now },
                        ),
                    ),
                )
            }
        }),
        caller == factory.admin && !paused ==> ({
            if !(old(vault).state is Paused) {
                r matches Err(e) && e == ErrorCode::FactoryNotActive && *final(vault) == *old(
                    vault,
                )
            } else {
                &&& *final(vault) == (Vault { state: VaultState::Active, ..*old(vault) })
                &&& r == Ok::<Option<VaultStateChange>, ErrorCode>(
                    Some(
                        VaultStateChange::Resumed(
                            VaultResumed { vault: vault_address, admin: caller, timestamp: now },
                        ),
                    ),
                )
            }
        }),
{
    if caller != factory.admin {
        return Err(ErrorCode::Unauthorized);
    }
    if paused {
        if vault.state == VaultState::Closed {
            return Err(ErrorCode::VaultNotActive);
        }
        if vault.state != VaultState::Paused {
            vault.state = VaultState::Paused;
            return Ok(
                Some(
                    VaultStateChange::Paused(
                        VaultPaused { vault: vault_address, admin: caller, timestamp: now },
                    ),
                ),
            );
        }
        Ok(None)
    } else {
        if vault.state != VaultState::Paused {
            return Err(ErrorCode::FactoryNotActive);
        }
        vault.state = VaultState::Active;
        Ok(
            Some(
                VaultStateChange::Resumed(
                    VaultResumed { vault: vault_address, admin: caller, timestamp: now },
                ),
            ),
        )
    }
}

/// Factory-wide fees together with this vault's own management fee and
/// identity.
pub fn get_vault_fees(factory: &Factory, vault: &Vault) -> (fees: VaultFees)
    ensures
        fees.entry_fee_bps == factory.entry_fee_bps,
        fees.exit_fee_bps == factory.exit_fee_bps,
        fees.vault_creation_fee_usdc == factory.vault_creation_fee_usdc,
        fees.min_management_fee_bps == factory.min_management_fee_bps,
        fees.max_management_fee_bps == factory.max_management_fee_bps,
        fees.vault_management_fees == vault.management_fees,
        fees.vault_index == vault.vault_index,
        fees.vault_name@ == vault.vault_name@,
        fees.vault_symbol@ == vault.vault_symbol@,
        fees.vault_admin == vault.admin,
{
    VaultFees {
        entry_fee_bps: factory.entry_fee_bps,
        exit_fee_bps: factory.exit_fee_bps,
        vault_creation_fee_usdc: factory.vault_creation_fee_usdc,
        min_management_fee_bps: factory.min_management_fee_bps,
        max_management_fee_bps: factory.max_management_fee_bps,
        vault_management_fees: vault.management_fees,
        vault_index: vault.vault_index,
        vault_name: vault.vault_name.clone(),
        vault_symbol: vault.vault_symbol.clone(),
        vault_admin: vault.admin,
    }
}

/// Snapshot of one vault and one user's position in it, from the vault record
/// and the two token accounts the embedding read. Rejects a vault index not
/// yet allocated by the factory.
pub fn get_deposit_details(
    vault: &Vault,
    factory: &Factory,
    vault_index: u32,
    vault_address: AccountId,
    user: AccountId,
    user_vault_token_balance: u64,
    vault_stablecoin_account: TokenBalance,
) -> (r: Result<DepositDetails, ErrorCode>)
    ensures
        r is Ok <==> vault_index < factory.vault_count,
        r matches Err(e) ==> e == ErrorCode::VaultNotFound,
        r matches Ok(details) ==> ({
            &&& details.vault_address == vault_address
            &&& details.vault_index == vault_index
            &&& details.vault_name@ == vault.vault_name@
            &&& details.vault_symbol@ == vault.vault_symbol@
            &&& details.user_address == user
            &&& details.user_vault_token_balance == user_vault_token_balance
            &&& details.vault_total_assets == vault.total_assets
            &&& details.vault_total_supply == vault.total_supply
            &&& details.vault_stablecoin_balance == vault_stablecoin_account.amount
            &&& details.stablecoin_mint == vault_stablecoin_account.mint
            &&& details.vault_state == vault.state
            &&& details.created_at == vault.created_at
        }),
{
    if vault_index >= factory.vault_count {
        return Err(ErrorCode::VaultNotFound);
    }
    Ok(DepositDetails {
        vault_address,
        vault_index,
        vault_name: vault.vault_name.clone(),
        vault_symbol: vault.vault_symbol.clone(),
        user_address: user,
        user_vault_token_balance,
        vault_total_assets: vault.total_assets,
        vault_total_supply: vault.total_supply,
        vault_stablecoin_balance: vault_stablecoin_account.amount,
        stablecoin_mint: vault_stablecoin_account.mint,
        vault_state: vault.state,
        created_at: vault.created_at,
    })
}

/// Gate for handing the vault's settlement-token custody to the external swap
/// aggregator: both lifecycle gates open, the executor authorized as vault or
/// factory admin, and a non-zero balance to swap. Swap execution itself and
/// the resulting asset accounting are entirely the caller's responsibility.
pub fn execute_swaps(
    vault: &Vault,
    factory: &Factory,
    executor: AccountId,
    vault_stablecoin_balance: u64,
) -> (r: Result<(), ErrorCode>)
    ensures
        r is Ok <==> vault.state is Active && factory.state is Active && (executor == vault.admin
            || executor == factory.admin) && vault_stablecoin_balance > 0,
        r matches Err(e) ==> e == (if !(vault.state is Active) {
            ErrorCode::VaultNotActive
        } else if !(factory.state is Active) {
            ErrorCode::FactoryNotActive
        } else if executor != vault.admin && executor != factory.admin {
            ErrorCode::Unauthorized
        } else {
            ErrorCode::InsufficientFunds
        }),
{
    if vault.state != VaultState::Active {
        return Err(ErrorCode::VaultNotActive);
    }
    if factory.state != FactoryState::Active {
        return Err(ErrorCode::FactoryNotActive);
    }
    if executor != vault.admin && executor != factory.admin {
        return Err(ErrorCode::Unauthorized);
    }
    if vault_stablecoin_balance == 0 {
        return Err(ErrorCode::InsufficientFunds);
    }
    Ok(())
}

/// Gate for moving `amount` of the vault's settlement-token custody to an
/// authorized user for client-side swapping. Returns the amount the embedding
/// must transfer under the vault's own derived authority.
pub fn transfer_vault_to_user(
    vault: &Vault,
    factory: &Factory,
    user: AccountId,
    amount: u64,
    vault_stablecoin_balance: u64,
) -> (r: Result<u64, ErrorCode>)
    ensures
        r is Ok <==> vault.state is Active && factory.state is Active && (user == vault.admin
            || user == factory.admin) && vault_stablecoin_balance >= amount,
        r matches Ok(transfer) ==> transfer == amount,
        r matches Err(e) ==> e == (if !(vault.state is Active) {
            ErrorCode::VaultNotActive
        } else if !(factory.state is Active) {
            ErrorCode::FactoryNotActive
        } else if user != vault.admin && user != factory.admin {
            ErrorCode::Unauthorized
        } else {
            ErrorCode::InsufficientFunds
        }),
{
    if vault.state != VaultState::Active {
        return Err(ErrorCode::VaultNotActive);
    }
    if factory.state != FactoryState::Active {
        return Err(ErrorCode::FactoryNotActive);
    }
    if user != vault.admin && user != factory.admin {
        return Err(ErrorCode::Unauthorized);
    }
    if vault_stablecoin_balance < amount {
        return Err(ErrorCode::InsufficientFunds);
    }
    Ok(amount)
}

/// Gate for withdrawing an underlying asset from vault custody to a user for
/// client-side redemption swaps: the token program must be one of the two
/// accepted programs and both token accounts must belong to it. Returns the
/// amount the embedding must transfer, checked against `decimals`, under the
/// vault's own derived authority.
pub fn withdraw_underlying_to_user(
    token_program: AccountId,
    vault_asset_account_owner: AccountId,
    user_asset_account_owner: AccountId,
    amount: u64,
    decimals: u8,
) -> (r: Result<(u64, u8), ErrorCode>)
    ensures
        r is Ok <==> (token_program == spec_token_program_id() || token_program
            == spec_token_2022_program_id()) && vault_asset_account_owner == token_program
            && user_asset_account_owner == token_program,
        r matches Ok(transfer) ==> transfer.0 == amount && transfer.1 == decimals,
        r matches Err(e) ==> e == ErrorCode::InvalidAmount,
{
    let is_spl_token = token_program == token_program_id();
    let is_token_2022 = token_program == token_2022_program_id();
    if !is_spl_token && !is_token_2022 {
        return Err(ErrorCode::InvalidAmount);
    }
    if vault_asset_account_owner != token_program {
        return Err(ErrorCode::InvalidAmount);
    }
    if user_asset_account_owner != token_program {
        return Err(ErrorCode::InvalidAmount);
    }
    Ok((amount, decimals))
}

} // verus!
