use vstd::prelude::*;
use vstd::arithmetic::div_mod::{
    lemma_div_by_multiple, lemma_div_is_ordered, lemma_div_pos_is_pos, lemma_fundamental_div_mod,
};
use vstd::arithmetic::mul::{lemma_mul_inequality, lemma_mul_nonnegative, lemma_mul_upper_bound};
use crate::constants::{MAX_BPS, SECONDS_PER_YEAR};

verus! {

// Fee arithmetic engine: pure functions over unsigned integers with 128-bit
// intermediate precision. Every division truncates toward zero, which rounds
// fee math in the protocol's favor: fees truncate down, payouts truncate down.
// Any checked-arithmetic failure is reported to the caller, which aborts the
// containing operation; nothing here wraps around.

/// `floor(amount * bps / 10_000)` over mathematical integers.
pub open spec fn spec_bps_fee(amount: int, bps: int) -> int {
    amount * bps / (MAX_BPS as int)
}

/// A basis-point fee is between zero and the amount it is taken from, so the
/// fee and the remainder split the amount exactly: no value is created or
/// destroyed by taking a fee.
pub proof fn lemma_bps_fee_split(amount: int, bps: int)
    requires
        0 <= amount,
        0 <= bps <= MAX_BPS,
    ensures
        0 <= spec_bps_fee(amount, bps) <= amount,
        spec_bps_fee(amount, bps) + (amount - spec_bps_fee(amount, bps)) == amount,
        amount * bps <= amount * (MAX_BPS as int),
{
    lemma_mul_nonnegative(amount, bps);
    lemma_div_pos_is_pos(amount * bps, MAX_BPS as int);
    lemma_mul_inequality(bps, MAX_BPS as int, amount);
    assert(amount * bps <= amount * (MAX_BPS as int));
    lemma_div_is_ordered(amount * bps, amount * (MAX_BPS as int), MAX_BPS as int);
    lemma_div_by_multiple(amount, MAX_BPS as int);
}

/// Entry/exit fees and ratio splits: `floor(amount * bps / 10_000)`.
pub fn bps_fee(amount: u64, bps: u16) -> (fee: u64)
    requires
        bps <= MAX_BPS,
    ensures
        fee == spec_bps_fee(amount as int, bps as int),
        fee <= amount,
{
    proof {
        lemma_bps_fee_split(amount as int, bps as int);
    }
    let prod: u128 = (amount as u128) * (bps as u128);
    (prod / (MAX_BPS as u128)) as u64
}

/// Denominator of the pro-rata accrual formula: one year of one hundred
/// percent, in basis-point-seconds.
pub open spec fn pro_rata_denominator() -> int {
    (MAX_BPS as int) * (SECONDS_PER_YEAR as int)
}

/// `floor(aum * annual_bps * elapsed / (10_000 * seconds_per_year))`, with
/// explicit zero fast paths for no elapsed time, no fee, and no assets.
pub open spec fn spec_pro_rata_fee(aum: int, annual_bps: int, elapsed_seconds: int) -> int {
    if elapsed_seconds <= 0 || annual_bps == 0 || aum == 0 {
        0
    } else {
        aum * annual_bps * elapsed_seconds / pro_rata_denominator()
    }
}

/// The checked pro-rata computation fails: the intermediate product exceeds
/// 128 bits, or the resulting fee does not fit in 64 bits.
pub open spec fn pro_rata_fee_overflows(aum: int, annual_bps: int, elapsed_seconds: int) -> bool {
    &&& elapsed_seconds > 0
    &&& annual_bps != 0
    &&& aum != 0
    &&& (aum * annual_bps * elapsed_seconds > u128::MAX
        || spec_pro_rata_fee(aum, annual_bps, elapsed_seconds) > u64::MAX)
}

/// Time-proportional management fee on `aum` at `annual_bps` per year over
/// `elapsed_seconds`. Returns `None` when the checked arithmetic fails.
pub fn pro_rata_fee(aum: u64, annual_bps: u16, elapsed_seconds: i64) -> (r: Option<u64>)
    ensures
        r is None <==> pro_rata_fee_overflows(aum as int, annual_bps as int, elapsed_seconds as int),
        r matches Some(fee) ==> fee == spec_pro_rata_fee(
            aum as int,
            annual_bps as int,
            elapsed_seconds as int,
        ),
{
    if elapsed_seconds <= 0 || annual_bps == 0 || aum == 0 {
        return Some(0);
    }
    proof {
        lemma_mul_upper_bound(aum as int, u64::MAX as int, annual_bps as int, u16::MAX as int);
    }
    let base: u128 = (aum as u128) * (annual_bps as u128);
    match base.checked_mul(elapsed_seconds as u128) {
        None => None,
        Some(numerator) => {
            let denominator: u128 = (MAX_BPS as u128) * (SECONDS_PER_YEAR as u128);
            let quotient: u128 = numerator / denominator;
            if quotient > u64::MAX as u128 {
                None
            } else {
                Some(quotient as u64)
            }
        },
    }
}

/// The pro-rata fee is monotone: non-decreasing in assets, in rate, and in
/// elapsed time alike.
pub proof fn lemma_pro_rata_fee_monotonic(
    aum1: int,
    annual_bps1: int,
    elapsed1: int,
    aum2: int,
    annual_bps2: int,
    elapsed2: int,
)
    requires
        0 <= aum1 <= aum2,
        0 <= annual_bps1 <= annual_bps2,
        elapsed1 <= elapsed2,
    ensures
        spec_pro_rata_fee(aum1, annual_bps1, elapsed1) <= spec_pro_rata_fee(
            aum2,
            annual_bps2,
            elapsed2,
        ),
{
    if elapsed1 <= 0 || annual_bps1 == 0 || aum1 == 0 {
        if !(elapsed2 <= 0 || annual_bps2 == 0 || aum2 == 0) {
            lemma_mul_nonnegative(aum2, annual_bps2);
            lemma_mul_nonnegative(aum2 * annual_bps2, elapsed2);
            lemma_div_pos_is_pos(aum2 * annual_bps2 * elapsed2, pro_rata_denominator());
        }
    } else {
        lemma_mul_inequality(aum1, aum2, annual_bps1);
        lemma_mul_inequality(annual_bps1, annual_bps2, aum2);
        assert(aum1 * annual_bps1 <= aum2 * annual_bps2);
        lemma_mul_inequality(aum1 * annual_bps1, aum2 * annual_bps2, elapsed1);
        lemma_mul_nonnegative(aum2, annual_bps2);
        lemma_mul_inequality(elapsed1, elapsed2, aum2 * annual_bps2);
        assert(aum1 * annual_bps1 * elapsed1 <= aum2 * annual_bps2 * elapsed2);
        lemma_div_is_ordered(
            aum1 * annual_bps1 * elapsed1,
            aum2 * annual_bps2 * elapsed2,
            pro_rata_denominator(),
        );
    }
}

/// Shares minted for a net deposit at the externally supplied share price:
/// `floor(net_amount * scale / share_price)`, with a defined 1:1 fallback when
/// the price is zero.
pub open spec fn spec_shares_for_deposit(net_amount: int, share_price: int, scale: int) -> int {
    if share_price == 0 {
        net_amount
    } else {
        net_amount * scale / share_price
    }
}

/// The checked share computation fails: the scaled amount exceeds 128 bits,
/// or the share count does not fit in 64 bits.
pub open spec fn shares_for_deposit_overflows(net_amount: int, share_price: int, scale: int) -> bool {
    &&& share_price != 0
    &&& (net_amount * scale > u128::MAX || net_amount * scale / share_price > u64::MAX)
}

/// Shares to mint for `net_amount` of settlement tokens at `share_price`.
/// Returns `None` when the checked arithmetic fails.
pub fn shares_for_deposit(net_amount: u64, share_price: u64, scale: u128) -> (r: Option<u64>)
    ensures
        r is None <==> shares_for_deposit_overflows(
            net_amount as int,
            share_price as int,
            scale as int,
        ),
        r matches Some(shares) ==> shares == spec_shares_for_deposit(
            net_amount as int,
            share_price as int,
            scale as int,
        ),
{
    if share_price == 0 {
        return Some(net_amount);
    }
    match (net_amount as u128).checked_mul(scale) {
        None => None,
        Some(numerator) => {
            let quotient: u128 = numerator / (share_price as u128);
            if quotient > u64::MAX as u128 {
                None
            } else {
                Some(quotient as u64)
            }
        },
    }
}

/// Gross settlement-token proceeds for burning `shares` at `share_price`:
/// `floor(shares * share_price / scale)`.
pub open spec fn spec_proceeds_for_shares(shares: int, share_price: int, scale: int) -> int {
    shares * share_price / scale
}

/// The proceeds do not fit in 64 bits.
pub open spec fn proceeds_for_shares_overflows(shares: int, share_price: int, scale: int) -> bool {
    shares * share_price / scale > u64::MAX
}

/// Gross payout for redeeming `shares` at `share_price`. Returns `None` when
/// the result does not fit in 64 bits.
pub fn proceeds_for_shares(shares: u64, share_price: u64, scale: u128) -> (r: Option<u64>)
    requires
        scale >= 1,
    ensures
        r is None <==> proceeds_for_shares_overflows(
            shares as int,
            share_price as int,
            scale as int,
        ),
        r matches Some(gross) ==> gross == spec_proceeds_for_shares(
            shares as int,
            share_price as int,
            scale as int,
        ),
{
    proof {
        lemma_mul_upper_bound(shares as int, u64::MAX as int, share_price as int, u64::MAX as int);
    }
    let numerator: u128 = (shares as u128) * (share_price as u128);
    let quotient: u128 = numerator / scale;
    if quotient > u64::MAX as u128 {
        None
    } else {
        Some(quotient as u64)
    }
}

/// `10^e` over mathematical integers.
pub open spec fn spec_pow10(e: nat) -> int
    decreases e,
{
    if e == 0 {
        1
    } else {
        10 * spec_pow10((e - 1) as nat)
    }
}

/// Powers of ten are positive.
pub proof fn lemma_pow10_positive(e: nat)
    ensures
        spec_pow10(e) >= 1,
    decreases e,
{
    if e > 0 {
        lemma_pow10_positive((e - 1) as nat);
    }
}

/// Powers of ten grow with the exponent.
pub proof fn lemma_pow10_increases(e1: nat, e2: nat)
    requires
        e1 <= e2,
    ensures
        spec_pow10(e1) <= spec_pow10(e2),
    decreases e2,
{
    if e1 < e2 {
        lemma_pow10_increases(e1, (e2 - 1) as nat);
        lemma_pow10_positive((e2 - 1) as nat);
    }
}

/// `10^decimals`, the fixed-point scale of a share token with `decimals`
/// decimal places. Returns `None` when the scale exceeds 128 bits.
pub fn pow10(e: u8) -> (r: Option<u128>)
    ensures
        r is Some <==> spec_pow10(e as nat) <= u128::MAX,
        r matches Some(scale) ==> scale == spec_pow10(e as nat) && scale >= 1,
{
    let mut result: u128 = 1;
    let mut i: u8 = 0;
    while i < e
        invariant
            i <= e,
            result == spec_pow10(i as nat),
            result >= 1,
        decreases e - i,
    {
        match result.checked_mul(10) {
            None => {
                proof {
                    lemma_pow10_increases((i + 1) as nat, e as nat);
                }
                return None;
            },
            Some(next) => {
                result = next;
            },
        }
        i = i + 1;
    }
    Some(result)
}

/// Minting shares for a net amount and immediately redeeming them at the same
/// price and scale never pays out more than the net amount: the two floors
/// only lose value.
pub proof fn lemma_round_trip_bounded(net_amount: int, share_price: int, scale: int)
    requires
        0 <= net_amount,
        0 <= share_price,
        1 <= scale,
    ensures
        spec_proceeds_for_shares(
            spec_shares_for_deposit(net_amount, share_price, scale),
            share_price,
            scale,
        ) <= net_amount,
{
    if share_price == 0 {
        assert(net_amount * 0 == 0);
        lemma_div_pos_is_pos(0, scale);
        assert(0int / scale == 0) by {
            lemma_div_by_multiple(0, scale);
        }
    } else {
        let shares: int = net_amount * scale / share_price;
        lemma_mul_nonnegative(net_amount, scale);
        lemma_div_pos_is_pos(net_amount * scale, share_price);
        lemma_fundamental_div_mod(net_amount * scale, share_price);
        assert(shares * share_price <= net_amount * scale);
        lemma_div_is_ordered(shares * share_price, net_amount * scale, scale);
        lemma_div_by_multiple(net_amount, scale);
    }
}

/// Round trip through both fees: depositing `amount` and immediately redeeming
/// the minted shares at the same price yields at most
/// `amount - entry_fee - exit_fee`. Fees are non-negative and non-refundable.
pub proof fn lemma_deposit_redeem_round_trip(
    amount: int,
    entry_fee_bps: int,
    exit_fee_bps: int,
    share_price: int,
    scale: int,
)
    requires
        0 <= amount,
        0 <= entry_fee_bps <= MAX_BPS,
        0 <= exit_fee_bps <= MAX_BPS,
        0 <= share_price,
        1 <= scale,
    ensures
        ({
            let entry_fee: int = spec_bps_fee(amount, entry_fee_bps);
            let net: int = amount - entry_fee;
            let shares: int = spec_shares_for_deposit(net, share_price, scale);
            let gross: int = spec_proceeds_for_shares(shares, share_price, scale);
            let exit_fee: int = spec_bps_fee(gross, exit_fee_bps);
            &&& 0 <= entry_fee
            &&& 0 <= exit_fee
            &&& gross - exit_fee <= amount - entry_fee - exit_fee
        }),
{
    lemma_bps_fee_split(amount, entry_fee_bps);
    let net: int = amount - spec_bps_fee(amount, entry_fee_bps);
    lemma_round_trip_bounded(net, share_price, scale);
    let shares: int = spec_shares_for_deposit(net, share_price, scale);
    let gross: int = spec_proceeds_for_shares(shares, share_price, scale);
    if share_price == 0 {
        lemma_mul_nonnegative(net, 0);
        lemma_div_pos_is_pos(net * 0, scale);
    } else {
        lemma_mul_nonnegative(net, scale);
        lemma_div_pos_is_pos(net * scale, share_price);
        lemma_mul_nonnegative(shares, share_price);
        lemma_div_pos_is_pos(shares * share_price, scale);
    }
    lemma_bps_fee_split(gross, exit_fee_bps);
}

} // verus!
