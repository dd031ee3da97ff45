use vstd::prelude::*;
use vstd::arithmetic::div_mod::lemma_div_pos_is_pos;
use vstd::arithmetic::mul::{lemma_mul_nonnegative, lemma_mul_upper_bound};
use crate::accrual::{accrual_overflows, spec_accrue, staged_accrual};
use crate::errors::ErrorCode;
use crate::events::{AccruedFeesDistributed, ManagementFeeClaimed};
use crate::math::{
    bps_fee, pow10, pro_rata_fee, pro_rata_fee_overflows, shares_for_deposit,
    shares_for_deposit_overflows, spec_bps_fee, spec_pow10, spec_pro_rata_fee,
    spec_shares_for_deposit,
};
use crate::state::{
    AccountId, AccruedManagementFees, AssetBalance, AssetPrice, Factory, TokenBalance,
    UnderlyingAsset, Vault,
};

verus! {

// Management-fee collection and distribution. The accrued total is split
// between the vault creator and the platform by the factory's configured
// ratios: the creator share is a basis-point fee, the platform share is the
// exact remainder, so the split sums to the total with no rounding leakage.

/// Payouts owed after a weekly collection: `vault_creator_share` moves from
/// vault custody to the vault admin and `platform_share` to the platform fee
/// recipient, both in settlement tokens under the vault's derived authority.
#[derive(Clone, Copy, Debug, PartialEq, Eq, Structural)]
pub struct CollectOutcome {
    pub total_collected_usdc: u64,
    pub vault_creator_share: u64,
    pub platform_share: u64,
}

/// Collects the management fees accrued so far and splits them between the
/// vault creator and the platform, paid in settlement tokens from vault
/// custody. Deliberately permissionless: funds move only to the
/// pre-configured recipients, so any keeper may trigger it.
///
/// Accrues up to `now` first; that accrual commits even when there is nothing
/// to collect. Collecting resets the accrued-fee tracker to zero.
pub fn collect_weekly_management_fees(vault: &mut Vault, factory: &Factory, now: i64) -> (r:
    Result<CollectOutcome, ErrorCode>)
    requires
        old(vault).wf(),
        factory.wf(),
    ensures
        final(vault).wf(),
        r is Ok <==> !accrual_overflows(*old(vault), now),
        r matches Err(e) ==> *final(vault) == *old(vault) && e == ErrorCode::InvalidAmount,
        r matches Ok(out) ==> ({
            let av: Vault = spec_accrue(*old(vault), now);
            let amount: u64 = av.accrued_management_fees_usdc;
            let creator: int = spec_bps_fee(amount as int, factory.vault_creator_fee_ratio_bps as int);
            &&& out.total_collected_usdc == amount
            &&& out.vault_creator_share == creator
            &&& out.platform_share == amount - creator
            &&& (amount == 0 ==> *final(vault) == av)
            &&& (amount > 0 ==> *final(vault) == (Vault {
                accrued_management_fees_usdc: 0u64,
                ..av
            }))
        }),
{
    let staged = match staged_accrual(vault, now) {
        Err(e) => {
            return Err(e);
        },
        Ok(u) => u,
    };
    vault.total_assets = staged.total_assets;
    vault.accrued_management_fees_usdc = staged.accrued_management_fees_usdc;
    vault.last_fee_accrual_ts = staged.last_fee_accrual_ts;
    let amount = vault.accrued_management_fees_usdc;
    if amount == 0 {
        return Ok(CollectOutcome {
            total_collected_usdc: 0,
            vault_creator_share: 0,
            platform_share: 0,
        });
    }
    let vault_creator_share = bps_fee(amount, factory.vault_creator_fee_ratio_bps);
    let platform_share = amount - vault_creator_share;
    vault.accrued_management_fees_usdc = 0;
    Ok(CollectOutcome { total_collected_usdc: amount, vault_creator_share, platform_share })
}

/// Mints owed after distributing accrued fees as shares:
/// `vault_creator_share_tokens` to the vault admin's share account and
/// `platform_share_tokens` to the platform's, diluting existing holders
/// proportionally so fee recipients stay aligned with fund performance.
#[derive(Clone, Copy, Debug, PartialEq, Eq, Structural)]
pub struct DistributeOutcome {
    pub vault_creator_share_usdc: u64,
    pub platform_share_usdc: u64,
    pub vault_creator_share_tokens: u64,
    pub platform_share_tokens: u64,
    pub event: AccruedFeesDistributed,
}

/// The share-token conversion of a fee split stays within range: the scale
/// fits, and both converted shares and the grown supply fit in 64 bits.
pub open spec fn fee_split_mintable(
    v: Vault,
    f: Factory,
    total: u64,
    share_price: u64,
    vault_decimals: u8,
) -> bool {
    let creator_usdc: int = spec_bps_fee(total as int, f.vault_creator_fee_ratio_bps as int);
    let platform_usdc: int = total - creator_usdc;
    let scale: int = spec_pow10(vault_decimals as nat);
    let creator_tokens: int = spec_shares_for_deposit(creator_usdc, share_price as int, scale);
    let platform_tokens: int = spec_shares_for_deposit(platform_usdc, share_price as int, scale);
    &&& scale <= u128::MAX
    &&& !shares_for_deposit_overflows(creator_usdc, share_price as int, scale)
    &&& !shares_for_deposit_overflows(platform_usdc, share_price as int, scale)
    &&& v.total_supply + creator_tokens + platform_tokens <= u64::MAX
}

/// Distributes an off-ledger-computed accrued fee total as newly minted vault
/// shares, split by the factory's ratios and converted at the supplied share
/// price (1:1 fallback when the price is zero). Permissionless: mints go only
/// to the pre-configured recipients.
///
/// A vault with no supply or no assets cannot price shares; that call is
/// accepted as a no-op (`Ok(None)`) and changes nothing. Otherwise the
/// accrued-fee tracker resets to zero and the supply grows by the minted
/// shares. Atomic: on rejection the vault is untouched.
pub fn distribute_accrued_fees(
    vault: &mut Vault,
    factory: &Factory,
    collector: AccountId,
    vault_address: AccountId,
    vault_index: u32,
    share_price: u64,
    management_fees_amount: u64,
    vault_decimals: u8,
    now: i64,
) -> (r: Result<Option<DistributeOutcome>, ErrorCode>)
    requires
        old(vault).wf(),
        factory.wf(),
    ensures
        final(vault).wf(),
        r is Err ==> *final(vault) == *old(vault),
        r matches Err(e) ==> e == ErrorCode::InvalidAmount,
        r is Ok <==> management_fees_amount > 0 && (old(vault).total_supply == 0 || old(
            vault,
        ).total_assets == 0 || fee_split_mintable(
            *old(vault),
            *factory,
            management_fees_amount,
            share_price,
            vault_decimals,
        )),
        management_fees_amount > 0 && (old(vault).total_supply == 0 || old(vault).total_assets
            == 0) ==> r == Ok::<Option<DistributeOutcome>, ErrorCode>(None) && *final(vault)
            == *old(vault),
        r matches Ok(Some(out)) ==> ({
            let creator_usdc: int = spec_bps_fee(
                management_fees_amount as int,
                factory.vault_creator_fee_ratio_bps as int,
            );
            let platform_usdc: int = management_fees_amount - creator_usdc;
            let scale: int = spec_pow10(vault_decimals as nat);
            let creator_tokens: int = spec_shares_for_deposit(
                creator_usdc,
                share_price as int,
                scale,
            );
            let platform_tokens: int = spec_shares_for_deposit(
                platform_usdc,
                share_price as int,
                scale,
            );
            &&& out.vault_creator_share_usdc == creator_usdc
            &&& out.platform_share_usdc == platform_usdc
            &&& out.vault_creator_share_tokens == creator_tokens
            &&& out.platform_share_tokens == platform_tokens
            &&& out.event == (AccruedFeesDistributed {
                vault: vault_address,
                collector,
                vault_index,
                total_accrued_fees_usdc: management_fees_amount,
                vault_creator_share_tokens: out.vault_creator_share_tokens,
                platform_share_tokens: out.platform_share_tokens,
                vault_creator_fee_ratio_bps: factory.vault_creator_fee_ratio_bps,
                platform_fee_ratio_bps: factory.platform_fee_ratio_bps,
                timestamp: now,
            })
            &&& *final(vault) == (Vault {
                accrued_management_fees_usdc: 0u64,
                total_supply: (old(vault).total_supply + creator_tokens + platform_tokens) as u64,
                ..*old(vault)
            })
        }),
        r matches Ok(o) ==> (old(vault).total_supply != 0 && old(vault).total_assets != 0
            ==> o is Some),
{
    if management_fees_amount == 0 {
        return Err(ErrorCode::InvalidAmount);
    }
    let vault_creator_share_usdc = bps_fee(
        management_fees_amount,
        factory.vault_creator_fee_ratio_bps,
    );
    let platform_share_usdc = management_fees_amount - vault_creator_share_usdc;
    if vault.total_supply == 0 || vault.total_assets == 0 {
        return Ok(None);
    }
    let scale = match pow10(vault_decimals) {
        None => {
            return Err(ErrorCode::InvalidAmount);
        },
        Some(s) => s,
    };
    let vault_creator_share_tokens = match shares_for_deposit(
        vault_creator_share_usdc,
        share_price,
        scale,
    ) {
        None => {
            return Err(ErrorCode::InvalidAmount);
        },
        Some(t) => t,
    };
    let platform_share_tokens = match shares_for_deposit(platform_share_usdc, share_price, scale) {
        None => {
            return Err(ErrorCode::InvalidAmount);
        },
        Some(t) => t,
    };
    let grown_supply = match vault.total_supply.checked_add(vault_creator_share_tokens) {
        None => {
            return Err(ErrorCode::InvalidAmount);
        },
        Some(x) => x,
    };
    let new_total_supply = match grown_supply.checked_add(platform_share_tokens) {
        None => {
            return Err(ErrorCode::InvalidAmount);
        },
        Some(x) => x,
    };
    vault.accrued_management_fees_usdc = 0;
    vault.total_supply = new_total_supply;
    Ok(
        Some(
            DistributeOutcome {
                vault_creator_share_usdc,
                platform_share_usdc,
                vault_creator_share_tokens,
                platform_share_tokens,
                event: AccruedFeesDistributed {
                    vault: vault_address,
                    collector,
                    vault_index,
                    total_accrued_fees_usdc: management_fees_amount,
                    vault_creator_share_tokens,
                    platform_share_tokens,
                    vault_creator_fee_ratio_bps: factory.vault_creator_fee_ratio_bps,
                    platform_fee_ratio_bps: factory.platform_fee_ratio_bps,
                    timestamp: now,
                },
            },
        ),
    )
}

/// Mints owed after a creator's direct claim, mirroring the distribution
/// split.
#[derive(Clone, Copy, Debug, PartialEq, Eq, Structural)]
pub struct ClaimOutcome {
    pub creator_share_usdc: u64,
    pub platform_share_usdc: u64,
    pub creator_share_tokens: u64,
    pub platform_share_tokens: u64,
    pub event: ManagementFeeClaimed,
}

/// The vault creator claims an off-ledger-computed accrued fee total directly,
/// without relying on an admin or keeper. Identical to the permissionless
/// distribution except that only the vault's designated creator (its admin)
/// may call.
pub fn claim_management_fee(
    vault: &mut Vault,
    factory: &Factory,
    caller: AccountId,
    vault_address: AccountId,
    vault_index: u32,
    share_price: u64,
    management_fees_amount: u64,
    vault_decimals: u8,
    now: i64,
) -> (r: Result<Option<ClaimOutcome>, ErrorCode>)
    requires
        old(vault).wf(),
        factory.wf(),
    ensures
        final(vault).wf(),
        r is Err ==> *final(vault) == *old(vault),
        caller != old(vault).admin ==> (r matches Err(e) && e == ErrorCode::Unauthorized),
        caller == old(vault).admin && r is Err ==> (r matches Err(e) && e
            == ErrorCode::InvalidAmount),
        r is Ok <==> caller == old(vault).admin && management_fees_amount > 0 && (old(
            vault,
        ).total_supply == 0 || old(vault).total_assets == 0 || fee_split_mintable(
            *old(vault),
            *factory,
            management_fees_amount,
            share_price,
            vault_decimals,
        )),
        caller == old(vault).admin && management_fees_amount > 0 && (old(vault).total_supply == 0
            || old(vault).total_assets == 0) ==> r == Ok::<Option<ClaimOutcome>, ErrorCode>(None)
            && *final(vault) == *old(vault),
        r matches Ok(Some(out)) ==> ({
            let creator_usdc: int = spec_bps_fee(
                management_fees_amount as int,
                factory.vault_creator_fee_ratio_bps as int,
            );
            let platform_usdc: int = management_fees_amount - creator_usdc;
            let scale: int = spec_pow10(vault_decimals as nat);
            let creator_tokens: int = spec_shares_for_deposit(
                creator_usdc,
                share_price as int,
                scale,
            );
            let platform_tokens: int = spec_shares_for_deposit(
                platform_usdc,
                share_price as int,
                scale,
            );
            &&& out.creator_share_usdc == creator_usdc
            &&& out.platform_share_usdc == platform_usdc
            &&& out.creator_share_tokens == creator_tokens
            &&& out.platform_share_tokens == platform_tokens
            &&& out.event == (ManagementFeeClaimed {
                vault: vault_address,
                creator: caller,
                vault_index,
                total_accrued_fees_usdc: management_fees_amount,
                creator_share_usdc: out.creator_share_usdc,
                platform_share_usdc: out.platform_share_usdc,
                vault_creator_fee_ratio_bps: factory.vault_creator_fee_ratio_bps,
                platform_fee_ratio_bps: factory.platform_fee_ratio_bps,
                timestamp: now,
            })
            &&& *final(vault) == (Vault {
                accrued_management_fees_usdc: 0u64,
                total_supply: (old(vault).total_supply + creator_tokens + platform_tokens) as u64,
                ..*old(vault)
            })
        }),
        r matches Ok(o) ==> (old(vault).total_supply != 0 && old(vault).total_assets != 0
            ==> o is Some),
{
    if caller != vault.admin {
        return Err(ErrorCode::Unauthorized);
    }
    if management_fees_amount == 0 {
        return Err(ErrorCode::InvalidAmount);
    }
    let creator_share_usdc = bps_fee(management_fees_amount, factory.vault_creator_fee_ratio_bps);
    let platform_share_usdc = management_fees_amount - creator_share_usdc;
    if vault.total_supply == 0 || vault.total_assets == 0 {
        return Ok(None);
    }
    let scale = match pow10(vault_decimals) {
        None => {
            return Err(ErrorCode::InvalidAmount);
        },
        Some(s) => s,
    };
    let creator_share_tokens = match shares_for_deposit(creator_share_usdc, share_price, scale) {
        None => {
            return Err(ErrorCode::InvalidAmount);
        },
        Some(t) => t,
    };
    let platform_share_tokens = match shares_for_deposit(platform_share_usdc, share_price, scale) {
        None => {
            return Err(ErrorCode::InvalidAmount);
        },
        Some(t) => t,
    };
    let grown_supply = match vault.total_supply.checked_add(creator_share_tokens) {
        None => {
            return Err(ErrorCode::InvalidAmount);
        },
        Some(x) => x,
    };
    let new_total_supply = match grown_supply.checked_add(platform_share_tokens) {
        None => {
            return Err(ErrorCode::InvalidAmount);
        },
        Some(x) => x,
    };
    vault.accrued_management_fees_usdc = 0;
    vault.total_supply = new_total_supply;
    Ok(
        Some(
            ClaimOutcome {
                creator_share_usdc,
                platform_share_usdc,
                creator_share_tokens,
                platform_share_tokens,
                event: ManagementFeeClaimed {
                    vault: vault_address,
                    creator: caller,
                    vault_index,
                    total_accrued_fees_usdc: management_fees_amount,
                    creator_share_usdc,
                    platform_share_usdc,
                    vault_creator_fee_ratio_bps: factory.vault_creator_fee_ratio_bps,
                    platform_fee_ratio_bps: factory.platform_fee_ratio_bps,
                    timestamp: now,
                },
            },
        ),
    )
}

// Live gross-asset-value audit view: recomputes the fund's value from actual
// holdings and caller-supplied prices rather than the internal asset ledger,
// accrues against that value, and returns the full breakdown, so off-ledger
// callers can audit accrual against live holdings.

/// First supplied price for `mint`, if any.
pub open spec fn spec_price_for(prices: Seq<AssetPrice>, mint: AccountId) -> Option<AssetPrice>
    decreases prices.len(),
{
    if prices.len() == 0 {
        None
    } else if prices[0].mint_address == mint {
        Some(prices[0])
    } else {
        spec_price_for(prices.drop_first(), mint)
    }
}

/// First supplied price for `mint`, if any.
fn find_price(prices: &Vec<AssetPrice>, mint: AccountId) -> (r: Option<AssetPrice>)
    ensures
        r == spec_price_for(prices@, mint),
{
    proof {
        assert(prices@.skip(0) =~= prices@);
    }
    let mut j: usize = 0;
    while j < prices.len()
        invariant
            j <= prices@.len(),
            spec_price_for(prices@, mint) == spec_price_for(prices@.skip(j as int), mint),
        decreases prices@.len() - j,
    {
        if prices[j].mint_address == mint {
            proof {
                assert(prices@.skip(j as int)[0] == prices@[j as int]);
            }
            return Some(prices[j]);
        }
        proof {
            assert(prices@.skip(j as int)[0] == prices@[j as int]);
            assert(prices@.skip(j as int).drop_first() =~= prices@.skip(j + 1));
        }
        j = j + 1;
    }
    None
}

/// USD value of a holding: `floor(balance * price_usd / 10^6)`, both the
/// balance and the price carrying six decimals.
pub open spec fn spec_asset_value(balance: int, price_usd: int) -> int {
    balance * price_usd / 1_000_000
}

/// Combined USD value of the first `n` underlying assets, each valued at its
/// supplied price and live balance.
pub open spec fn spec_assets_value(
    assets: Seq<UnderlyingAsset>,
    prices: Seq<AssetPrice>,
    accounts: Seq<TokenBalance>,
    n: int,
) -> int
    decreases n,
{
    if n <= 0 {
        0
    } else {
        spec_assets_value(assets, prices, accounts, n - 1) + spec_asset_value(
            accounts[n - 1].amount as int,
            spec_price_for(prices, assets[n - 1].mint_address)->Some_0.price_usd as int,
        )
    }
}

/// Partial asset values only grow: every term is non-negative.
proof fn lemma_assets_value_monotone(
    assets: Seq<UnderlyingAsset>,
    prices: Seq<AssetPrice>,
    accounts: Seq<TokenBalance>,
    i: int,
    j: int,
)
    requires
        0 <= i <= j,
    ensures
        spec_assets_value(assets, prices, accounts, i) <= spec_assets_value(
            assets,
            prices,
            accounts,
            j,
        ),
    decreases j,
{
    if i < j {
        lemma_assets_value_monotone(assets, prices, accounts, i, j - 1);
        let balance: int = accounts[j - 1].amount as int;
        let price: int = spec_price_for(prices, assets[j - 1].mint_address)->Some_0.price_usd as int;
        lemma_mul_nonnegative(balance, price);
        lemma_div_pos_is_pos(balance * price, 1_000_000);
    }
}

/// The supplied prices and live accounts line up with the vault's asset list:
/// same lengths, a price for every asset, and each account holding the mint
/// its position claims.
pub open spec fn gav_inputs_valid(
    assets: Seq<UnderlyingAsset>,
    prices: Seq<AssetPrice>,
    accounts: Seq<TokenBalance>,
) -> bool {
    &&& prices.len() == assets.len()
    &&& accounts.len() == assets.len()
    &&& forall|i: int|
        0 <= i < assets.len() ==> spec_price_for(prices, #[trigger] assets[i].mint_address) is Some
    &&& forall|i: int| 0 <= i < assets.len() ==> #[trigger] accounts[i].mint == assets[i].mint_address
}

/// Gross asset value: settlement-token custody plus every underlying holding
/// valued at its supplied price.
pub open spec fn spec_gav(
    stablecoin_balance: u64,
    assets: Seq<UnderlyingAsset>,
    prices: Seq<AssetPrice>,
    accounts: Seq<TokenBalance>,
) -> int {
    stablecoin_balance + spec_assets_value(assets, prices, accounts, assets.len() as int)
}

/// The live-value view accrues on this call: time has elapsed, the vault
/// charges a fee, and the fund has value to charge it on.
pub open spec fn spec_gav_accrual_due(v: Vault, gav: int, now: i64) -> bool {
    now > v.last_fee_accrual_ts && v.management_fees > 0 && gav > 0
}

/// The live-value audit succeeds: inputs line up, the gross asset value fits
/// in 64 bits, and — when accrual is due — the pro-rata arithmetic and the
/// grown fee tracker stay in range.
pub open spec fn gav_view_accepted(
    v: Vault,
    stablecoin_balance: u64,
    prices: Seq<AssetPrice>,
    accounts: Seq<TokenBalance>,
    now: i64,
) -> bool {
    let assets = v.underlying_assets@;
    let gav: int = spec_gav(stablecoin_balance, assets, prices, accounts);
    let elapsed: int = now - v.last_fee_accrual_ts;
    &&& gav_inputs_valid(assets, prices, accounts)
    &&& gav <= u64::MAX
    &&& (spec_gav_accrual_due(v, gav, now) ==> !pro_rata_fee_overflows(
        gav,
        v.management_fees as int,
        elapsed,
    ) && v.accrued_management_fees_usdc + spec_pro_rata_fee(gav, v.management_fees as int, elapsed)
        <= u64::MAX)
}

/// The live-value accrual path and the internal-ledger accrual path agree
/// whenever the vault is fully settled: when the gross asset value computed
/// from live holdings equals the internal asset ledger, both paths charge
/// the same pro-rata fee for the same window.
pub proof fn lemma_accrual_paths_agree(
    v: Vault,
    stablecoin_balance: u64,
    prices: Seq<AssetPrice>,
    accounts: Seq<TokenBalance>,
    now: i64,
)
    requires
        spec_gav(stablecoin_balance, v.underlying_assets@, prices, accounts) == v.total_assets as int,
    ensures
        spec_pro_rata_fee(
            spec_gav(stablecoin_balance, v.underlying_assets@, prices, accounts),
            v.management_fees as int,
            now - v.last_fee_accrual_ts,
        ) == spec_pro_rata_fee(
            v.total_assets as int,
            v.management_fees as int,
            now - v.last_fee_accrual_ts,
        ),
{
}

/// Recomputes the fund's gross asset value from `stablecoin_account` and the
/// live `asset_accounts` at the supplied `asset_prices`, accrues the pro-rata
/// management fee against that value, and returns the full breakdown. The
/// net asset value is the gross value minus all accrued fees, floored at
/// zero.
///
/// Input-shape violations are rejected before arithmetic ones; rejection
/// leaves the vault untouched. On success only the accrued-fee tracker and
/// the accrual clock change, and only when accrual was due.
#[verifier::loop_isolation(false)]
pub fn get_accrued_management_fees(
    vault: &mut Vault,
    vault_index: u32,
    asset_prices: &Vec<AssetPrice>,
    stablecoin_account: TokenBalance,
    asset_accounts: &Vec<TokenBalance>,
    now: i64,
) -> (r: Result<AccruedManagementFees, ErrorCode>)
    requires
        old(vault).wf(),
    ensures
        final(vault).wf(),
        r is Ok <==> gav_view_accepted(
            *old(vault),
            stablecoin_account.amount,
            asset_prices@,
            asset_accounts@,
            now,
        ),
        r matches Err(e) ==> *final(vault) == *old(vault) && e == (if !gav_inputs_valid(
            old(vault).underlying_assets@,
            asset_prices@,
            asset_accounts@,
        ) {
            ErrorCode::InvalidUnderlyingAssets
        } else {
            ErrorCode::InvalidAmount
        }),
        r matches Ok(out) ==> ({
            let assets = old(vault).underlying_assets@;
            let gav: int = spec_gav(stablecoin_account.amount, assets, asset_prices@, asset_accounts@);
            let elapsed: int = if now > old(vault).last_fee_accrual_ts {
                now - old(vault).last_fee_accrual_ts
            } else {
                0
            };
            let due: bool = spec_gav_accrual_due(*old(vault), gav, now);
            let newly: int = if due {
                spec_pro_rata_fee(gav, old(vault).management_fees as int, elapsed)
            } else {
                0
            };
            let total: int = old(vault).accrued_management_fees_usdc + newly;
            &&& out.vault_index == vault_index
            &&& out.vault_name@ == old(vault).vault_name@
            &&& out.vault_symbol@ == old(vault).vault_symbol@
            &&& out.vault_admin == old(vault).admin
            &&& out.management_fee_bps == old(vault).management_fees
            &&& out.gav == gav
            &&& out.nav == (if total <= gav {
                gav - total
            } else {
                0
            })
            &&& out.last_fee_accrual_ts == (if due {
                now as int
            } else {
                old(vault).last_fee_accrual_ts as int
            })
            &&& out.current_timestamp == now
            &&& out.elapsed_seconds == elapsed
            &&& out.previously_accrued_fees == old(vault).accrued_management_fees_usdc
            &&& out.newly_accrued_fees == newly
            &&& out.total_accrued_fees == total
            &&& out.asset_balances@.len() == assets.len() + 1
            &&& out.asset_balances@[0] == (AssetBalance {
                mint_address: stablecoin_account.mint,
                balance: stablecoin_account.amount,
                price_usd: 1_000_000u64,
                value_usd: stablecoin_account.amount,
            })
            &&& forall|i: int|
                0 <= i < assets.len() ==> #[trigger] out.asset_balances@[i + 1] == (AssetBalance {
                    mint_address: assets[i].mint_address,
                    balance: asset_accounts@[i].amount,
                    price_usd: spec_price_for(asset_prices@, assets[i].mint_address)->Some_0.price_usd,
                    value_usd: spec_asset_value(
                        asset_accounts@[i].amount as int,
                        spec_price_for(asset_prices@, assets[i].mint_address)->Some_0.price_usd as int,
                    ) as u64,
                })
            &&& *final(vault) == (Vault {
                accrued_management_fees_usdc: total as u64,
                last_fee_accrual_ts: if due {
                    now
                } else {
                    old(vault).last_fee_accrual_ts
                },
                ..*old(vault)
            })
        }),
{
    let ghost assets = vault.underlying_assets@;
    let previously_accrued_fees = vault.accrued_management_fees_usdc;
    let elapsed: i64 = if now > vault.last_fee_accrual_ts {
        now - vault.last_fee_accrual_ts
    } else {
        0
    };
    let n = vault.underlying_assets.len();
    if asset_prices.len() != n {
        return Err(ErrorCode::InvalidUnderlyingAssets);
    }
    if asset_accounts.len() != n {
        return Err(ErrorCode::InvalidUnderlyingAssets);
    }
    let mut i: usize = 0;
    while i < n
        invariant
            i <= n == assets.len(),
            *vault == *old(vault),
            assets == vault.underlying_assets@,
            asset_prices@.len() == n,
            asset_accounts@.len() == n,
            forall|k: int|
                0 <= k < i ==> spec_price_for(
                    asset_prices@,
                    #[trigger] assets[k].mint_address,
                ) is Some,
            forall|k: int| 0 <= k < i ==> #[trigger] asset_accounts@[k].mint == assets[k].mint_address,
        decreases n - i,
    {
        let asset_mint = vault.underlying_assets[i].mint_address;
        if find_price(asset_prices, asset_mint).is_none() {
            return Err(ErrorCode::InvalidUnderlyingAssets);
        }
        if asset_accounts[i].mint != asset_mint {
            return Err(ErrorCode::InvalidUnderlyingAssets);
        }
        i = i + 1;
    }
    let mut asset_balances: Vec<AssetBalance> = Vec::new();
    asset_balances.push(
        AssetBalance {
            mint_address: stablecoin_account.mint,
            balance: stablecoin_account.amount,
            price_usd: 1_000_000,
            value_usd: stablecoin_account.amount,
        },
    );
    let mut gav: u64 = stablecoin_account.amount;
    let mut i: usize = 0;
    while i < n
        invariant
            i <= n == assets.len(),
            *vault == *old(vault),
            assets == vault.underlying_assets@,
            asset_prices@.len() == n,
            asset_accounts@.len() == n,
            gav_inputs_valid(assets, asset_prices@, asset_accounts@),
            gav == stablecoin_account.amount + spec_assets_value(
                assets,
                asset_prices@,
                asset_accounts@,
                i as int,
            ),
            asset_balances@.len() == i + 1,
            asset_balances@[0] == (AssetBalance {
                mint_address: stablecoin_account.mint,
                balance: stablecoin_account.amount,
                price_usd: 1_000_000u64,
                value_usd: stablecoin_account.amount,
            }),
            forall|k: int|
                0 <= k < i ==> #[trigger] asset_balances@[k + 1] == (AssetBalance {
                    mint_address: assets[k].mint_address,
                    balance: asset_accounts@[k].amount,
                    price_usd: spec_price_for(asset_prices@, assets[k].mint_address)->Some_0.price_usd,
                    value_usd: spec_asset_value(
                        asset_accounts@[k].amount as int,
                        spec_price_for(asset_prices@, assets[k].mint_address)->Some_0.price_usd as int,
                    ) as u64,
                }),
        decreases n - i,
    {
        let asset_mint = vault.underlying_assets[i].mint_address;
        let price = match find_price(asset_prices, asset_mint) {
            Some(p) => p,
            None => {
                return Err(ErrorCode::InvalidUnderlyingAssets);
            },
        };
        let balance = asset_accounts[i].amount;
        proof {
            lemma_mul_upper_bound(
                balance as int,
                u64::MAX as int,
                price.price_usd as int,
                u64::MAX as int,
            );
            lemma_mul_nonnegative(balance as int, price.price_usd as int);
            lemma_div_pos_is_pos((balance as int) * (price.price_usd as int), 1_000_000);
        }
        let numerator: u128 = (balance as u128) * (price.price_usd as u128);
        let quotient: u128 = numerator / 1_000_000u128;
        if quotient > u64::MAX as u128 {
            proof {
                lemma_assets_value_monotone(
                    assets,
                    asset_prices@,
                    asset_accounts@,
                    i + 1,
                    n as int,
                );
            }
            return Err(ErrorCode::InvalidAmount);
        }
        let value_usd = quotient as u64;
        gav = match gav.checked_add(value_usd) {
            None => {
                proof {
                    lemma_assets_value_monotone(
                        assets,
                        asset_prices@,
                        asset_accounts@,
                        i + 1,
                        n as int,
                    );
                }
                return Err(ErrorCode::InvalidAmount);
            },
            Some(g) => g,
        };
        asset_balances.push(
            AssetBalance { mint_address: asset_mint, balance, price_usd: price.price_usd, value_usd },
        );
        i = i + 1;
    }
    let newly_accrued_fees: u64;
    if elapsed > 0 && vault.management_fees > 0 && gav > 0 {
        match pro_rata_fee(gav, vault.management_fees, elapsed) {
            None => {
                return Err(ErrorCode::InvalidAmount);
            },
            Some(accrued) => {
                match vault.accrued_management_fees_usdc.checked_add(accrued) {
                    None => {
                        return Err(ErrorCode::InvalidAmount);
                    },
                    Some(total) => {
                        vault.accrued_management_fees_usdc = total;
                        vault.last_fee_accrual_ts = now;
                        newly_accrued_fees = accrued;
                    },
                }
            },
        }
    } else {
        newly_accrued_fees = 0;
    }
    let total_accrued_fees = vault.accrued_management_fees_usdc;
    let nav = if total_accrued_fees <= gav {
        gav - total_accrued_fees
    } else {
        0
    };
    Ok(AccruedManagementFees {
        vault_index,
        vault_name: vault.vault_name.clone(),
        vault_symbol: vault.vault_symbol.clone(),
        vault_admin: vault.admin,
        management_fee_bps: vault.management_fees,
        nav,
        gav,
        last_fee_accrual_ts: vault.last_fee_accrual_ts,
        current_timestamp: now,
        elapsed_seconds: elapsed,
        previously_accrued_fees,
        newly_accrued_fees,
        total_accrued_fees,
        asset_balances,
    })
}

} // verus!
