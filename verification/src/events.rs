use vstd::prelude::*;
use crate::state::{AccountId, UnderlyingAsset};

verus! {

// Durable event records. Each state-changing operation returns the record it
// owes its caller; the embedding appends it to whatever log the host offers.

/// Emitted once when the factory singleton is initialized.
#[derive(Clone, Copy, Debug, PartialEq, Eq, Structural)]
pub struct FactoryInitialized {
    pub admin: AccountId,
    pub fee_recipient: AccountId,
    pub entry_fee_bps: u16,
    pub exit_fee_bps: u16,
    pub vault_creation_fee_usdc: u64,
    pub min_management_fee_bps: u16,
    pub max_management_fee_bps: u16,
    pub vault_creator_fee_ratio_bps: u16,
    pub platform_fee_ratio_bps: u16,
    pub timestamp: i64,
}

/// Emitted when the factory admin hands over to a new admin.
#[derive(Clone, Copy, Debug, PartialEq, Eq, Structural)]
pub struct FactoryAdminUpdated {
    pub previous_admin: AccountId,
    pub new_admin: AccountId,
    pub timestamp: i64,
}

/// Emitted when a vault is created under the factory.
#[derive(Clone, Debug)]
pub struct VaultCreated {
    pub vault: AccountId,
    pub factory: AccountId,
    pub admin: AccountId,
    pub vault_index: u32,
    pub vault_name: String,
    pub vault_symbol: String,
    pub underlying_assets: Vec<UnderlyingAsset>,
    pub management_fees: u16,
    pub timestamp: i64,
}

/// Emitted when the factory fee policy changes.
#[derive(Clone, Copy, Debug, PartialEq, Eq, Structural)]
pub struct FactoryFeesUpdated {
    pub admin: AccountId,
    pub entry_fee_bps: u16,
    pub exit_fee_bps: u16,
    pub vault_creation_fee_usdc: u64,
    pub min_management_fee_bps: u16,
    pub max_management_fee_bps: u16,
    pub vault_creator_fee_ratio_bps: u16,
    pub platform_fee_ratio_bps: u16,
    pub timestamp: i64,
}

/// Emitted for every accepted deposit.
#[derive(Clone, Copy, Debug, PartialEq, Eq, Structural)]
pub struct DepositEvent {
    pub vault: AccountId,
    pub user: AccountId,
    pub stablecoin_mint: AccountId,
    pub amount: u64,
    pub entry_fee: u64,
    pub vault_tokens_minted: u64,
    pub timestamp: i64,
}

/// Emitted for every settled redemption.
#[derive(Clone, Copy, Debug, PartialEq, Eq, Structural)]
pub struct RedeemEvent {
    pub vault: AccountId,
    pub user: AccountId,
    pub stablecoin_mint: AccountId,
    pub vault_tokens_burned: u64,
    pub exit_fee: u64,
    pub stablecoin_amount_redeemed: u64,
    pub timestamp: i64,
}

/// Emitted when a vault moves into the Paused state.
#[derive(Clone, Copy, Debug, PartialEq, Eq, Structural)]
pub struct VaultPaused {
    pub vault: AccountId,
    pub admin: AccountId,
    pub timestamp: i64,
}

/// Emitted when a paused vault resumes.
#[derive(Clone, Copy, Debug, PartialEq, Eq, Structural)]
pub struct VaultResumed {
    pub vault: AccountId,
    pub admin: AccountId,
    pub timestamp: i64,
}

/// Emitted when accrued management fees are distributed as newly minted
/// vault shares.
#[derive(Clone, Copy, Debug, PartialEq, Eq, Structural)]
pub struct AccruedFeesDistributed {
    pub vault: AccountId,
    pub collector: AccountId,
    pub vault_index: u32,
    pub total_accrued_fees_usdc: u64,
    pub vault_creator_share_tokens: u64,
    pub platform_share_tokens: u64,
    pub vault_creator_fee_ratio_bps: u16,
    pub platform_fee_ratio_bps: u16,
    pub timestamp: i64,
}

/// Emitted when the vault creator claims accrued management fees directly.
#[derive(Clone, Copy, Debug, PartialEq, Eq, Structural)]
pub struct ManagementFeeClaimed {
    pub vault: AccountId,
    pub creator: AccountId,
    pub vault_index: u32,
    pub total_accrued_fees_usdc: u64,
    pub creator_share_usdc: u64,
    pub platform_share_usdc: u64,
    pub vault_creator_fee_ratio_bps: u16,
    pub platform_fee_ratio_bps: u16,
    pub timestamp: i64,
}

} // verus!
