use vstd::prelude::*;
use crate::constants::{
    JUP_IX_MAX_LEN, MAX_BPS, MAX_MANAGEMENT_BPS_LIMIT, MAX_UNDERLYING_ASSETS,
    MAX_VAULT_NAME_LENGTH, MAX_VAULT_SYMBOL_LENGTH, MIN_UNDERLYING_ASSETS,
};

verus! {

/// A 32-byte ledger identity (an account address, a mint address, or a
/// program id), held as two 128-bit halves so that equality in contracts is
/// plain field equality.
#[derive(Clone, Copy, Debug, PartialEq, Eq, Structural)]
pub struct AccountId {
    pub hi: u128,
    pub lo: u128,
}

/// Lifecycle state of the factory singleton.
#[derive(Clone, Copy, Debug, PartialEq, Eq, Structural)]
pub enum FactoryState {
    Active,
    Paused,
    Deprecated,
}

/// Lifecycle state of one vault. `Closed` is a declared terminal state with
/// no transition into it; no operation here sets it.
#[derive(Clone, Copy, Debug, PartialEq, Eq, Structural)]
pub enum VaultState {
    Active,
    Paused,
    Closed,
}

/// One target allocation of a vault: an asset mint and its share of the fund
/// in basis points. Immutable once the vault is created.
#[derive(Clone, Copy, Debug, PartialEq, Eq, Structural)]
pub struct UnderlyingAsset {
    pub mint_address: AccountId,
    pub mint_bps: u16,
}

/// Bytes one underlying-asset entry occupies in the vault record.
pub const UNDERLYING_ASSET_SPACE: usize = 32 + 2;

/// Bytes the factory record occupies: discriminator, bump, admin,
/// fee recipient, vault count, state, and the seven fee-policy fields.
pub const FACTORY_INIT_SPACE: usize = 8 + 1 + 32 + 32 + 4 + 1 + 2 + 2 + 8 + 2 + 2 + 2 + 2;

/// The global registry of vaults and the protocol-wide fee policy; a single
/// well-known record per deployment.
#[derive(Clone, Copy, Debug, PartialEq, Eq, Structural)]
pub struct Factory {
    pub admin: AccountId,
    pub fee_recipient: AccountId,
    pub vault_count: u32,
    pub state: FactoryState,
    pub entry_fee_bps: u16,
    pub exit_fee_bps: u16,
    pub vault_creation_fee_usdc: u64,
    pub min_management_fee_bps: u16,
    pub max_management_fee_bps: u16,
    pub vault_creator_fee_ratio_bps: u16,
    pub platform_fee_ratio_bps: u16,
}

impl Factory {
    /// Fee-policy invariant, enforced at initialization and at every fees
    /// update: entry/exit fees capped, management-fee bounds ordered and
    /// capped, and the two distribution ratios strictly positive and summing
    /// to exactly one hundred percent.
    pub open spec fn wf(self) -> bool {
        &&& self.entry_fee_bps <= crate::constants::MAX_ENTRY_EXIT_BPS_LIMIT
        &&& self.exit_fee_bps <= crate::constants::MAX_ENTRY_EXIT_BPS_LIMIT
        &&& self.min_management_fee_bps <= self.max_management_fee_bps
        &&& self.max_management_fee_bps <= MAX_MANAGEMENT_BPS_LIMIT
        &&& self.vault_creator_fee_ratio_bps + self.platform_fee_ratio_bps == MAX_BPS
        &&& self.vault_creator_fee_ratio_bps > 0
        &&& self.platform_fee_ratio_bps > 0
    }
}

/// Sum of the target allocations of a list of underlying assets.
pub open spec fn sum_mint_bps(assets: Seq<UnderlyingAsset>) -> int
    decreases assets.len(),
{
    if assets.len() == 0 {
        0
    } else {
        sum_mint_bps(assets.drop_last()) + assets.last().mint_bps
    }
}

/// The persistent record of one fund: configuration, share supply, the
/// internal net-asset-value ledger, and the fee-accrual clock.
#[derive(Clone, Debug)]
pub struct Vault {
    pub vault_index: u32,
    pub factory: AccountId,
    pub admin: AccountId,
    pub vault_name: String,
    pub vault_symbol: String,
    pub underlying_assets: Vec<UnderlyingAsset>,
    pub management_fees: u16,
    pub state: VaultState,
    pub total_assets: u64,
    pub total_supply: u64,
    pub created_at: i64,
    pub last_fee_accrual_ts: i64,
    pub accrued_management_fees_usdc: u64,
}

impl Vault {
    /// Structural invariant established at creation and preserved by every
    /// operation: bounded display strings, a bounded non-empty asset list
    /// whose targets sum to one hundred percent, a capped management fee, and
    /// non-negative clock values.
    pub open spec fn wf(self) -> bool {
        &&& self.vault_name@.len() <= MAX_VAULT_NAME_LENGTH
        &&& self.vault_symbol@.len() <= MAX_VAULT_SYMBOL_LENGTH
        &&& MIN_UNDERLYING_ASSETS <= self.underlying_assets@.len() <= MAX_UNDERLYING_ASSETS
        &&& sum_mint_bps(self.underlying_assets@) == MAX_BPS
        &&& self.management_fees <= MAX_MANAGEMENT_BPS_LIMIT
        &&& self.created_at >= 0
        &&& self.last_fee_accrual_ts >= 0
    }

    /// Bytes a vault record with `num_assets` underlying assets occupies.
    pub open spec fn spec_calculate_space(num_assets: int) -> int {
        8 + 1 + 4 + 32 + 32 + (4 + 32) + (4 + 32) + 4 + num_assets * (
        UNDERLYING_ASSET_SPACE as int) + 2 + 1 + 8 + 8 + 8 + 8 + 8
    }

    /// Record size for a vault holding `num_assets` underlying assets.
    pub fn calculate_space(num_assets: usize) -> (space: usize)
        requires
            num_assets <= MAX_UNDERLYING_ASSETS,
        ensures
            space == Self::spec_calculate_space(num_assets as int),
    {
        8 + 1 + 4 + 32 + 32 + (4 + 32) + (4 + 32) + 4 + num_assets * UNDERLYING_ASSET_SPACE + 2 + 1
            + 8 + 8 + 8 + 8 + 8
    }
}

/// What the accounting core reads from one ledger token account: the mint it
/// holds and its current balance.
#[derive(Clone, Copy, Debug, PartialEq, Eq, Structural)]
pub struct TokenBalance {
    pub mint: AccountId,
    pub amount: u64,
}

/// Header of an on-ledger buffer holding one serialized swap instruction for
/// one asset of one vault; the instruction bytes follow the header.
#[derive(Clone, Copy, Debug, PartialEq, Eq, Structural)]
pub struct JupiterIxData {
    pub vault: AccountId,
    pub asset_mint: AccountId,
    pub data_len: u32,
}

/// Bytes of the swap-instruction buffer header.
pub const JUPITER_IX_HEADER_SPACE: usize = 8 + 1 + 32 + 32 + 4;

/// Bytes of the full swap-instruction buffer.
pub const JUPITER_IX_TOTAL_SPACE: usize = JUPITER_IX_HEADER_SPACE + JUP_IX_MAX_LEN;

/// Snapshot of the factory returned to callers.
#[derive(Clone, Copy, Debug, PartialEq, Eq, Structural)]
pub struct FactoryInfo {
    pub factory_address: AccountId,
    pub admin: AccountId,
    pub fee_recipient: AccountId,
    pub vault_count: u32,
    pub state: FactoryState,
    pub entry_fee_bps: u16,
    pub exit_fee_bps: u16,
    pub vault_creation_fee_usdc: u64,
    pub min_management_fee_bps: u16,
    pub max_management_fee_bps: u16,
    pub vault_creator_fee_ratio_bps: u16,
    pub platform_fee_ratio_bps: u16,
}

/// Snapshot of one vault and one user's position in it.
#[derive(Clone, Debug)]
pub struct DepositDetails {
    pub vault_address: AccountId,
    pub vault_index: u32,
    pub vault_name: String,
    pub vault_symbol: String,
    pub user_address: AccountId,
    pub user_vault_token_balance: u64,
    pub vault_total_assets: u64,
    pub vault_total_supply: u64,
    pub vault_stablecoin_balance: u64,
    pub stablecoin_mint: AccountId,
    pub vault_state: VaultState,
    pub created_at: i64,
}

/// Factory-wide and vault-specific fee parameters returned to callers.
#[derive(Clone, Debug)]
pub struct VaultFees {
    pub entry_fee_bps: u16,
    pub exit_fee_bps: u16,
    pub vault_creation_fee_usdc: u64,
    pub min_management_fee_bps: u16,
    pub max_management_fee_bps: u16,
    pub vault_management_fees: u16,
    pub vault_index: u32,
    pub vault_name: String,
    pub vault_symbol: String,
    pub vault_admin: AccountId,
}

/// Externally supplied price of one asset mint, in USD with six decimals.
#[derive(Clone, Copy, Debug, PartialEq, Eq, Structural)]
pub struct AssetPrice {
    pub mint_address: AccountId,
    pub price_usd: u64,
}

/// One live holding of a vault: balance, supplied price, and derived value.
#[derive(Clone, Copy, Debug, PartialEq, Eq, Structural)]
pub struct AssetBalance {
    pub mint_address: AccountId,
    pub balance: u64,
    pub price_usd: u64,
    pub value_usd: u64,
}

/// Full accrual breakdown computed against live holdings and supplied prices,
/// letting off-ledger callers audit accrual against the internal ledger.
#[derive(Clone, Debug)]
pub struct AccruedManagementFees {
    pub vault_index: u32,
    pub vault_name: String,
    pub vault_symbol: String,
    pub vault_admin: AccountId,
    pub management_fee_bps: u16,
    pub nav: u64,
    pub gav: u64,
    pub last_fee_accrual_ts: i64,
    pub current_timestamp: i64,
    pub elapsed_seconds: i64,
    pub previously_accrued_fees: u64,
    pub newly_accrued_fees: u64,
    pub total_accrued_fees: u64,
    pub asset_balances: Vec<AssetBalance>,
}

} // verus!
