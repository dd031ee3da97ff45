use vstd::prelude::*;
use crate::errors::ErrorCode;
use crate::math::{pro_rata_fee, pro_rata_fee_overflows, spec_pro_rata_fee};
use crate::state::Vault;

verus! {

// Management-fee accrual: continuous AUM-based fee ticking. Accrual runs as a
// prologue to deposits and redemptions and as a standalone operation, so the
// share-price basis always reflects up-to-date assets net of fees and
// depositors cannot dilute unaccrued fee claims.

/// Time has passed since the vault's last accrual.
pub open spec fn accrual_due(v: Vault, now: i64) -> bool {
    now > v.last_fee_accrual_ts
}

/// Management fee owed for the window from the last accrual to `now`.
pub open spec fn spec_accrued_fee(v: Vault, now: i64) -> int {
    spec_pro_rata_fee(v.total_assets as int, v.management_fees as int, now - v.last_fee_accrual_ts)
}

/// The checked accrual arithmetic fails for this vault and clock reading:
/// the pro-rata product or fee is out of range, or the accrued-fee tracker
/// would overflow.
pub open spec fn accrual_overflows(v: Vault, now: i64) -> bool {
    &&& accrual_due(v, now)
    &&& (pro_rata_fee_overflows(
        v.total_assets as int,
        v.management_fees as int,
        now - v.last_fee_accrual_ts,
    ) || v.accrued_management_fees_usdc + spec_accrued_fee(v, now) > u64::MAX)
}

/// The vault after accruing up to `now`: the owed fee moves out of the
/// net-asset ledger (saturating at zero, a recoverable clamp) into the
/// accrued-fee tracker, and the accrual clock advances — unconditionally once
/// any time has elapsed, even when the owed fee is zero, so the same window
/// is never accrued twice.
pub open spec fn spec_accrue(v: Vault, now: i64) -> Vault {
    if !accrual_due(v, now) {
        v
    } else {
        let fee: int = spec_accrued_fee(v, now);
        Vault {
            total_assets: if fee >= v.total_assets {
                0u64
            } else {
                (v.total_assets - fee) as u64
            },
            accrued_management_fees_usdc: (v.accrued_management_fees_usdc + fee) as u64,
            last_fee_accrual_ts: now,
            ..v
        }
    }
}

/// The three vault fields an accrual changes, computed without committing
/// them, so that a pipeline can reject later and leave the vault untouched.
pub(crate) struct AccrualUpdate {
    pub(crate) total_assets: u64,
    pub(crate) accrued_management_fees_usdc: u64,
    pub(crate) last_fee_accrual_ts: i64,
}

/// Computes the accrual of `v` up to `now` without mutating anything.
pub(crate) fn staged_accrual(v: &Vault, now: i64) -> (r: Result<AccrualUpdate, ErrorCode>)
    requires
        v.wf(),
    ensures
        r is Ok <==> !accrual_overflows(*v, now),
        r matches Err(e) ==> e == ErrorCode::InvalidAmount,
        r matches Ok(u) ==> ({
            let accrued: Vault = spec_accrue(*v, now);
            &&& u.total_assets == accrued.total_assets
            &&& u.accrued_management_fees_usdc == accrued.accrued_management_fees_usdc
            &&& u.last_fee_accrual_ts == accrued.last_fee_accrual_ts
        }),
{
    if now <= v.last_fee_accrual_ts {
        return Ok(AccrualUpdate {
            total_assets: v.total_assets,
            accrued_management_fees_usdc: v.accrued_management_fees_usdc,
            last_fee_accrual_ts: v.last_fee_accrual_ts,
        });
    }
    let elapsed: i64 = now - v.last_fee_accrual_ts;
    match pro_rata_fee(v.total_assets, v.management_fees, elapsed) {
        None => Err(ErrorCode::InvalidAmount),
        Some(fee) => match v.accrued_management_fees_usdc.checked_add(fee) {
            None => Err(ErrorCode::InvalidAmount),
            Some(new_accrued) => {
                let new_assets: u64 = if fee >= v.total_assets {
                    0
                } else {
                    v.total_assets - fee
                };
                Ok(AccrualUpdate {
                    total_assets: new_assets,
                    accrued_management_fees_usdc: new_accrued,
                    last_fee_accrual_ts: now,
                })
            },
        },
    }
}

/// Accrues management fees on `vault` up to the clock reading `now`.
///
/// No-op if no time has elapsed. Otherwise the owed pro-rata fee is deducted
/// from `total_assets` (saturating at zero), added to
/// `accrued_management_fees_usdc`, and the accrual clock advances to `now`
/// even when the owed fee is zero. A checked-arithmetic failure rejects the
/// whole operation and leaves the vault untouched.
pub fn accrue_management_fees(vault: &mut Vault, now: i64) -> (r: Result<(), ErrorCode>)
    requires
        old(vault).wf(),
    ensures
        final(vault).wf(),
        r is Ok <==> !accrual_overflows(*old(vault), now),
        r is Ok ==> *final(vault) == spec_accrue(*old(vault), now),
        r matches Err(e) ==> *final(vault) == *old(vault) && e == ErrorCode::InvalidAmount,
{
    match staged_accrual(vault, now) {
        Err(e) => Err(e),
        Ok(update) => {
            vault.total_assets = update.total_assets;
            vault.accrued_management_fees_usdc = update.accrued_management_fees_usdc;
            vault.last_fee_accrual_ts = update.last_fee_accrual_ts;
            Ok(())
        },
    }
}

/// Accrual is idempotent over one clock reading: accruing a second time with
/// no elapsed time between the calls changes no state the second time.
pub proof fn lemma_accrual_idempotent(v: Vault, now: i64)
    ensures
        spec_accrue(spec_accrue(v, now), now) == spec_accrue(v, now),
{
    if accrual_due(v, now) {
        assert(!accrual_due(spec_accrue(v, now), now));
    }
}

} // verus!
