use vstd::prelude::*;
use crate::state::AccountId;

verus! {

/// One hundred percent, expressed in basis points.
pub const MAX_BPS: u16 = 10_000;

/// Default entry/exit fee for a fresh deployment (0.25%).
pub const DEFAULT_ENTRY_EXIT_FEE_BPS: u16 = 25;

/// Default lower bound on a vault's annual management fee (0.5%).
pub const DEFAULT_MIN_MANAGEMENT_FEE_BPS: u16 = 50;

/// Default upper bound on a vault's annual management fee (3%).
pub const DEFAULT_MAX_MANAGEMENT_FEE_BPS: u16 = 300;

/// Flat vault-creation fee in settlement-token base units (six decimals).
pub const DEFAULT_VAULT_CREATION_FEE_USDC: u64 = 10_000_000;

/// Default share of accrued management fees paid to the vault creator (70%).
pub const DEFAULT_VAULT_CREATOR_FEE_RATIO_BPS: u16 = 7_000;

/// Default share of accrued management fees paid to the platform (30%).
pub const DEFAULT_PLATFORM_FEE_RATIO_BPS: u16 = 3_000;

/// Cap on the factory's entry and exit fees (10%).
pub const MAX_ENTRY_EXIT_BPS_LIMIT: u16 = 1_000;

/// Cap on any vault's annual management fee (20%).
pub const MAX_MANAGEMENT_BPS_LIMIT: u16 = 2_000;

/// A vault must hold at least this many underlying assets.
pub const MIN_UNDERLYING_ASSETS: usize = 1;

/// A vault may hold at most this many underlying assets, so that its record
/// stays within the ledger's per-record size ceiling.
pub const MAX_UNDERLYING_ASSETS: usize = 240;

/// The ledger's maximum record size in bytes.
pub const MAX_ACCOUNT_SIZE: usize = 10_240_000;

/// Longest accepted vault display name.
pub const MAX_VAULT_NAME_LENGTH: usize = 50;

/// Longest accepted vault display symbol.
pub const MAX_VAULT_SYMBOL_LENGTH: usize = 30;

/// Largest serialized swap instruction stored in an on-ledger buffer.
pub const JUP_IX_MAX_LEN: usize = 1024;

/// Length of the accrual year: management fees accrue pro rata over
/// 365 days of 86,400 seconds.
pub const SECONDS_PER_YEAR: i64 = 365 * 24 * 60 * 60;

/// Share-token base units minted to the vault itself at creation, keeping the
/// supply positive while assets are still zero and so keeping every price
/// calculation free of division by zero.
pub const VAULT_SEED_SUPPLY: u64 = 1_000_000;

/// Identity of the standard token program, accepted for underlying-asset
/// withdrawals.
pub open spec fn spec_token_program_id() -> AccountId {
    AccountId { hi: 0x06ddf6e1d765a193d9cbe146ceeb79ac, lo: 0x1cb485ed5f5b37913a8cf5857eff00a9 }
}

/// Identity of the standard token program.
pub fn token_program_id() -> (r: AccountId)
    ensures
        r == spec_token_program_id(),
{
    AccountId { hi: 0x06ddf6e1d765a193d9cbe146ceeb79ac, lo: 0x1cb485ed5f5b37913a8cf5857eff00a9 }
}

/// Identity of the extensions-capable token program, also accepted for
/// underlying-asset withdrawals.
pub open spec fn spec_token_2022_program_id() -> AccountId {
    AccountId { hi: 0x06ddf6e1ee758fde18425dbce46ccdda, lo: 0xb61afc4d83b90d27febdf928d8a18bfc }
}

/// Identity of the extensions-capable token program.
pub fn token_2022_program_id() -> (r: AccountId)
    ensures
        r == spec_token_2022_program_id(),
{
    AccountId { hi: 0x06ddf6e1ee758fde18425dbce46ccdda, lo: 0xb61afc4d83b90d27febdf928d8a18bfc }
}

} // verus!
