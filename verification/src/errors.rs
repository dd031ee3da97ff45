use vstd::prelude::*;

verus! {

/// Discrete error code carried by every rejected operation. A rejected
/// operation never leaves partial effects behind: callers observe either the
/// full state change or the untouched state plus one of these codes.
#[derive(Clone, Copy, Debug, PartialEq, Eq, Structural)]
pub enum ErrorCode {
    /// Entry/exit or management fees exceed their configured cap.
    FeesTooHigh,
    /// Management-fee bounds are inverted, or the fee-split ratios are invalid.
    InvalidFeeRange,
    /// Vault name exceeds the display-name bound.
    VaultNameTooLong,
    /// Vault symbol exceeds the display-symbol bound.
    VaultSymbolTooLong,
    /// Underlying-asset list is empty, too long, or inconsistent with inputs.
    InvalidUnderlyingAssets,
    /// The vault record would exceed the ledger's size ceiling.
    AccountTooLarge,
    /// Management fee outside the factory's configured bounds.
    InvalidManagementFees,
    /// Target allocations do not sum to exactly 10,000 basis points.
    InvalidBpsSum,
    /// The given vault index is not below the factory's vault count.
    VaultNotFound,
    /// The vault is not in the Active state.
    VaultNotActive,
    /// A zero amount, or a checked-arithmetic failure, aborted the operation.
    InvalidAmount,
    /// The factory is not in the Active state.
    FactoryNotActive,
    /// The caller is not authorized for this operation.
    Unauthorized,
    /// The redeemer holds fewer vault tokens than requested.
    InsufficientVaultTokens,
    /// The vault's settlement-token custody cannot cover the payout.
    InsufficientFunds,
    /// The supplied metadata program is not the expected one.
    InvalidMetadataProgram,
}

impl ErrorCode {
    /// Human-readable message for the code.
    pub fn message(&self) -> &'static str {
        match self {
            ErrorCode::FeesTooHigh => "Fees are too high",
            ErrorCode::InvalidFeeRange => "Invalid fee range (min > max)",
            ErrorCode::VaultNameTooLong => "Vault name is too long",
            ErrorCode::VaultSymbolTooLong => "Vault symbol is too long",
            ErrorCode::InvalidUnderlyingAssets => "Invalid underlying assets configuration",
            ErrorCode::AccountTooLarge => "Account size exceeds maximum allowed",
            ErrorCode::InvalidManagementFees => "Invalid management fees",
            ErrorCode::InvalidBpsSum => "Invalid BPS sum - must equal 10000 (100%)",
            ErrorCode::VaultNotFound => "Vault not found",
            ErrorCode::VaultNotActive => "Vault is not active",
            ErrorCode::InvalidAmount => "Invalid amount",
            ErrorCode::FactoryNotActive => "Factory is not active",
            ErrorCode::Unauthorized => "Unauthorized access",
            ErrorCode::InsufficientVaultTokens => "Insufficient vault tokens",
            ErrorCode::InsufficientFunds => "Insufficient funds",
            ErrorCode::InvalidMetadataProgram => "Invalid metadata program",
        }
    }
}

} // verus!
