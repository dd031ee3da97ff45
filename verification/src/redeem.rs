use vstd::prelude::*;
use crate::accrual::{accrual_overflows, spec_accrue, staged_accrual};
use crate::errors::ErrorCode;
use crate::events::RedeemEvent;
use crate::math::{
    bps_fee, pow10, proceeds_for_shares, proceeds_for_shares_overflows, spec_bps_fee, spec_pow10,
    spec_proceeds_for_shares,
};
use crate::state::{AccountId, Factory, FactoryState, Vault, VaultState};

verus! {

// Redemption pipeline, externally priced like the deposit pipeline: validates,
// computes gross proceeds from the supplied share price, collects the exit
// fee, burns the shares, and reports the payouts owed. Management fees accrue
// first.

/// Everything a settled redemption obliges the embedding to do: burn
/// `vault_tokens_burned` from the redeemer, pay `exit_fee` from vault custody
/// to the platform fee recipient and `net_to_user` from vault custody to the
/// redeemer (both authorized by the vault's own derived authority), and
/// append the event record.
#[derive(Clone, Copy, Debug, PartialEq, Eq, Structural)]
pub struct RedeemOutcome {
    pub vault_tokens_burned: u64,
    pub exit_fee: u64,
    pub net_to_user: u64,
    pub event: RedeemEvent,
}

/// A redemption of `vault_token_amount` shares at `share_price` is settled:
/// accrual arithmetic succeeds, the amount is positive, both lifecycle gates
/// are open, the redeemer holds enough shares, supply is positive, the payout
/// arithmetic stays in range, vault custody covers the net payout, and the
/// ledger subtractions do not underflow.
pub open spec fn redeem_accepted(
    v: Vault,
    f: Factory,
    vault_token_amount: u64,
    share_price: u64,
    user_vault_balance: u64,
    vault_stablecoin_balance: u64,
    vault_decimals: u8,
    now: i64,
) -> bool {
    let av = spec_accrue(v, now);
    let scale: int = spec_pow10(vault_decimals as nat);
    let gross: int = spec_proceeds_for_shares(vault_token_amount as int, share_price as int, scale);
    let exit_fee: int = spec_bps_fee(gross, f.exit_fee_bps as int);
    let net_to_user: int = gross - exit_fee;
    &&& !accrual_overflows(v, now)
    &&& vault_token_amount > 0
    &&& v.state is Active
    &&& f.state is Active
    &&& user_vault_balance >= vault_token_amount
    &&& v.total_supply > 0
    &&& scale <= u128::MAX
    &&& gross <= u64::MAX
    &&& vault_stablecoin_balance >= net_to_user
    &&& vault_token_amount <= v.total_supply
    &&& gross <= av.total_assets
}

/// The code a rejected redemption is rejected with, following the order the
/// checks run in.
pub open spec fn redeem_error(
    v: Vault,
    f: Factory,
    vault_token_amount: u64,
    share_price: u64,
    user_vault_balance: u64,
    vault_stablecoin_balance: u64,
    vault_decimals: u8,
    now: i64,
) -> ErrorCode {
    let av = spec_accrue(v, now);
    let scale: int = spec_pow10(vault_decimals as nat);
    let gross: int = spec_proceeds_for_shares(vault_token_amount as int, share_price as int, scale);
    let exit_fee: int = spec_bps_fee(gross, f.exit_fee_bps as int);
    if accrual_overflows(v, now) {
        ErrorCode::InvalidAmount
    } else if vault_token_amount == 0 {
        ErrorCode::InvalidAmount
    } else if !(v.state is Active) {
        ErrorCode::VaultNotActive
    } else if !(f.state is Active) {
        ErrorCode::FactoryNotActive
    } else if user_vault_balance < vault_token_amount {
        ErrorCode::InsufficientVaultTokens
    } else if v.total_supply == 0 {
        ErrorCode::InvalidAmount
    } else if scale > u128::MAX || gross > u64::MAX {
        ErrorCode::InvalidAmount
    } else if vault_stablecoin_balance < gross - exit_fee {
        ErrorCode::InsufficientFunds
    } else {
        ErrorCode::InvalidAmount
    }
}

/// Settles a redemption of `vault_token_amount` shares for `user` at the
/// externally supplied `share_price`. `user_vault_balance` is the redeemer's
/// share balance and `vault_stablecoin_balance` the vault's settlement-token
/// custody, both read from the ledger by the embedding.
///
/// Atomic: on rejection the vault is untouched. On settlement the vault has
/// accrued management fees up to `now`, the burned shares left its supply,
/// and the gross proceeds left its asset ledger; the outcome reports the
/// burn and the two payouts the embedding must perform.
pub fn finalize_redeem(
    vault: &mut Vault,
    factory: &Factory,
    vault_address: AccountId,
    user: AccountId,
    stablecoin_mint: AccountId,
    vault_token_amount: u64,
    share_price: u64,
    user_vault_balance: u64,
    vault_stablecoin_balance: u64,
    vault_decimals: u8,
    now: i64,
) -> (r: Result<RedeemOutcome, ErrorCode>)
    requires
        old(vault).wf(),
        factory.wf(),
    ensures
        final(vault).wf(),
        r is Ok <==> redeem_accepted(
            *old(vault),
            *factory,
            vault_token_amount,
            share_price,
            user_vault_balance,
            vault_stablecoin_balance,
            vault_decimals,
            now,
        ),
        r matches Err(e) ==> *final(vault) == *old(vault) && e == redeem_error(
            *old(vault),
            *factory,
            vault_token_amount,
            share_price,
            user_vault_balance,
            vault_stablecoin_balance,
            vault_decimals,
            now,
        ),
        r matches Ok(out) ==> ({
            let av: Vault = spec_accrue(*old(vault), now);
            let gross: int = spec_proceeds_for_shares(
                vault_token_amount as int,
                share_price as int,
                spec_pow10(vault_decimals as nat),
            );
            let exit_fee: int = spec_bps_fee(gross, factory.exit_fee_bps as int);
            &&& out.vault_tokens_burned == vault_token_amount
            &&& out.exit_fee == exit_fee
            &&& out.net_to_user == gross - exit_fee
            &&& out.event == (RedeemEvent {
                vault: vault_address,
                user,
                stablecoin_mint,
                vault_tokens_burned: vault_token_amount,
                exit_fee: out.exit_fee,
                stablecoin_amount_redeemed: out.net_to_user,
                timestamp: now,
            })
            &&& *final(vault) == (Vault {
                total_assets: (av.total_assets - gross) as u64,
                total_supply: (av.total_supply - vault_token_amount) as u64,
                ..av
            })
        }),
{
    let staged = match staged_accrual(vault, now) {
        Err(e) => {
            return Err(e);
        },
        Ok(u) => u,
    };
    if vault_token_amount == 0 {
        return Err(ErrorCode::InvalidAmount);
    }
    if vault.state != VaultState::Active {
        return Err(ErrorCode::VaultNotActive);
    }
    if factory.state != FactoryState::Active {
        return Err(ErrorCode::FactoryNotActive);
    }
    if user_vault_balance < vault_token_amount {
        return Err(ErrorCode::InsufficientVaultTokens);
    }
    if vault.total_supply == 0 {
        return Err(ErrorCode::InvalidAmount);
    }
    let scale = match pow10(vault_decimals) {
        None => {
            return Err(ErrorCode::InvalidAmount);
        },
        Some(s) => s,
    };
    let user_share_usdc = match proceeds_for_shares(vault_token_amount, share_price, scale) {
        None => {
            return Err(ErrorCode::InvalidAmount);
        },
        Some(g) => g,
    };
    let exit_fee = bps_fee(user_share_usdc, factory.exit_fee_bps);
    let net_to_user = user_share_usdc - exit_fee;
    if vault_stablecoin_balance < net_to_user {
        return Err(ErrorCode::InsufficientFunds);
    }
    let new_total_supply = match vault.total_supply.checked_sub(vault_token_amount) {
        None => {
            return Err(ErrorCode::InvalidAmount);
        },
        Some(x) => x,
    };
    let new_total_assets = match staged.total_assets.checked_sub(user_share_usdc) {
        None => {
            return Err(ErrorCode::InvalidAmount);
        },
        Some(x) => x,
    };
    vault.total_assets = new_total_assets;
    vault.total_supply = new_total_supply;
    vault.accrued_management_fees_usdc = staged.accrued_management_fees_usdc;
    vault.last_fee_accrual_ts = staged.last_fee_accrual_ts;
    Ok(RedeemOutcome {
        vault_tokens_burned: vault_token_amount,
        exit_fee,
        net_to_user,
        event: RedeemEvent {
            vault: vault_address,
            user,
            stablecoin_mint,
            vault_tokens_burned: vault_token_amount,
            exit_fee,
            stablecoin_amount_redeemed: net_to_user,
            timestamp: now,
        },
    })
}

/// Pause gate for redemptions. Pausing an Active vault makes every redemption
/// rejected; resuming it restores exactly the settlements the vault had while
/// Active — the identical request succeeds again.
pub proof fn lemma_redeem_pause_gate(
    v: Vault,
    f: Factory,
    vault_token_amount: u64,
    share_price: u64,
    user_vault_balance: u64,
    vault_stablecoin_balance: u64,
    vault_decimals: u8,
    now: i64,
)
    requires
        v.state is Active,
    ensures
        ({
            let paused: Vault = Vault { state: VaultState::Paused, ..v };
            let resumed: Vault = Vault { state: VaultState::Active, ..paused };
            &&& !redeem_accepted(
                paused,
                f,
                vault_token_amount,
                share_price,
                user_vault_balance,
                vault_stablecoin_balance,
                vault_decimals,
                now,
            )
            &&& redeem_accepted(
                resumed,
                f,
                vault_token_amount,
                share_price,
                user_vault_balance,
                vault_stablecoin_balance,
                vault_decimals,
                now,
            ) == redeem_accepted(
                v,
                f,
                vault_token_amount,
                share_price,
                user_vault_balance,
                vault_stablecoin_balance,
                vault_decimals,
                now,
            )
        }),
{
}

} // verus!
