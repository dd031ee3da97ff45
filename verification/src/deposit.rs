use vstd::prelude::*;
use crate::accrual::{accrual_overflows, spec_accrue, staged_accrual};
use crate::errors::ErrorCode;
use crate::events::DepositEvent;
use crate::math::{
    bps_fee, pow10, shares_for_deposit, shares_for_deposit_overflows, spec_bps_fee, spec_pow10,
    spec_shares_for_deposit,
};
use crate::state::{AccountId, Factory, FactoryState, Vault, VaultState};

verus! {

// Deposit pipeline: validates, collects the entry fee, computes shares at the
// externally supplied share price, mutates the vault ledger, and reports the
// token movements owed. Management fees accrue first so the share-price basis
// reflects up-to-date assets net of fees.

/// Everything an accepted deposit obliges the embedding to do: move
/// `entry_fee` from the depositor to the platform fee recipient, move
/// `net_deposit` from the depositor into the vault's settlement-token
/// custody, mint `vault_tokens_minted` share tokens to the depositor, and
/// append the event record.
#[derive(Clone, Copy, Debug, PartialEq, Eq, Structural)]
pub struct DepositOutcome {
    pub entry_fee: u64,
    pub net_deposit: u64,
    pub vault_tokens_minted: u64,
    pub event: DepositEvent,
}

/// A deposit of `amount` at `share_price` into this vault under this factory
/// is accepted: accrual arithmetic succeeds, both lifecycle gates are open,
/// the amount is positive, and the share and ledger arithmetic stays in
/// range.
pub open spec fn deposit_accepted(
    v: Vault,
    f: Factory,
    amount: u64,
    share_price: u64,
    vault_decimals: u8,
    now: i64,
) -> bool {
    let av = spec_accrue(v, now);
    let entry_fee: int = spec_bps_fee(amount as int, f.entry_fee_bps as int);
    let net: int = amount - entry_fee;
    let scale: int = spec_pow10(vault_decimals as nat);
    let shares: int = spec_shares_for_deposit(net, share_price as int, scale);
    &&& !accrual_overflows(v, now)
    &&& v.state is Active
    &&& amount > 0
    &&& f.state is Active
    &&& scale <= u128::MAX
    &&& !shares_for_deposit_overflows(net, share_price as int, scale)
    &&& av.total_assets + net <= u64::MAX
    &&& av.total_supply + shares <= u64::MAX
}

/// The code a rejected deposit is rejected with, following the order the
/// checks run in: accrual arithmetic, vault gate, amount, factory gate, then
/// the remaining checked arithmetic.
pub open spec fn deposit_error(
    v: Vault,
    f: Factory,
    amount: u64,
    share_price: u64,
    vault_decimals: u8,
    now: i64,
) -> ErrorCode {
    if accrual_overflows(v, now) {
        ErrorCode::InvalidAmount
    } else if !(v.state is Active) {
        ErrorCode::VaultNotActive
    } else if amount == 0 {
        ErrorCode::InvalidAmount
    } else if !(f.state is Active) {
        ErrorCode::FactoryNotActive
    } else {
        ErrorCode::InvalidAmount
    }
}

/// Deposits `amount` settlement tokens into the vault for `user` at the
/// externally supplied `share_price` (settlement units per share, at the
/// share token's own scale; a zero price falls back to 1:1).
///
/// Atomic: on rejection the vault is untouched. On acceptance the vault has
/// accrued management fees up to `now`, `net_deposit` joined its asset
/// ledger, and `vault_tokens_minted` joined its supply; the outcome reports
/// the transfers and mint the embedding must perform.
pub fn deposit(
    vault: &mut Vault,
    factory: &Factory,
    vault_address: AccountId,
    user: AccountId,
    stablecoin_mint: AccountId,
    amount: u64,
    share_price: u64,
    vault_decimals: u8,
    now: i64,
) -> (r: Result<DepositOutcome, ErrorCode>)
    requires
        old(vault).wf(),
        factory.wf(),
    ensures
        final(vault).wf(),
        r is Ok <==> deposit_accepted(*old(vault), *factory, amount, share_price, vault_decimals, now),
        r matches Err(e) ==> *final(vault) == *old(vault) && e == deposit_error(
            *old(vault),
            *factory,
            amount,
            share_price,
            vault_decimals,
            now,
        ),
        r matches Ok(out) ==> ({
            let av: Vault = spec_accrue(*old(vault), now);
            let entry_fee: int = spec_bps_fee(amount as int, factory.entry_fee_bps as int);
            let net: int = amount - entry_fee;
            let shares: int = spec_shares_for_deposit(
                net,
                share_price as int,
                spec_pow10(vault_decimals as nat),
            );
            &&& out.entry_fee == entry_fee
            &&& out.net_deposit == net
            &&& out.vault_tokens_minted == shares
            &&& out.event == (DepositEvent {
                vault: vault_address,
                user,
                stablecoin_mint,
                amount,
                entry_fee: out.entry_fee,
                vault_tokens_minted: out.vault_tokens_minted,
                timestamp: now,
            })
            &&& *final(vault) == (Vault {
                total_assets: (av.total_assets + net) as u64,
                total_supply: (av.total_supply + shares) as u64,
                ..av
            })
        }),
{
    let staged = match staged_accrual(vault, now) {
        Err(e) => {
            return Err(e);
        },
        Ok(u) => u,
    };
    if vault.state != VaultState::Active {
        return Err(ErrorCode::VaultNotActive);
    }
    if amount == 0 {
        return Err(ErrorCode::InvalidAmount);
    }
    if factory.state != FactoryState::Active {
        return Err(ErrorCode::FactoryNotActive);
    }
    let entry_fee = bps_fee(amount, factory.entry_fee_bps);
    let net = amount - entry_fee;
    let scale = match pow10(vault_decimals) {
        None => {
            return Err(ErrorCode::InvalidAmount);
        },
        Some(s) => s,
    };
    let vault_tokens_to_mint = match shares_for_deposit(net, share_price, scale) {
        None => {
            return Err(ErrorCode::InvalidAmount);
        },
        Some(s) => s,
    };
    let new_total_assets = match staged.total_assets.checked_add(net) {
        None => {
            return Err(ErrorCode::InvalidAmount);
        },
        Some(x) => x,
    };
    let new_total_supply = match vault.total_supply.checked_add(vault_tokens_to_mint) {
        None => {
            return Err(ErrorCode::InvalidAmount);
        },
        Some(x) => x,
    };
    vault.total_assets = new_total_assets;
    vault.total_supply = new_total_supply;
    vault.accrued_management_fees_usdc = staged.accrued_management_fees_usdc;
    vault.last_fee_accrual_ts = staged.last_fee_accrual_ts;
    Ok(DepositOutcome {
        entry_fee,
        net_deposit: net,
        vault_tokens_minted: vault_tokens_to_mint,
        event: DepositEvent {
            vault: vault_address,
            user,
            stablecoin_mint,
            amount,
            entry_fee,
            vault_tokens_minted: vault_tokens_to_mint,
            timestamp: now,
        },
    })
}

/// Pause gate for deposits. Pausing an Active vault makes every deposit
/// rejected; resuming it restores exactly the acceptances the vault had
/// while Active — the identical request succeeds again.
pub proof fn lemma_deposit_pause_gate(
    v: Vault,
    f: Factory,
    amount: u64,
    share_price: u64,
    vault_decimals: u8,
    now: i64,
)
    requires
        v.state is Active,
    ensures
        ({
            let paused: Vault = Vault { state: VaultState::Paused, ..v };
            let resumed: Vault = Vault { state: VaultState::Active, ..paused };
            &&& !deposit_accepted(paused, f, amount, share_price, vault_decimals, now)
            &&& deposit_accepted(resumed, f, amount, share_price, vault_decimals, now)
                == deposit_accepted(v, f, amount, share_price, vault_decimals, now)
        }),
{
}

} // verus!
