use vstd::prelude::*;
use crate::constants::{MAX_BPS, MAX_ENTRY_EXIT_BPS_LIMIT, MAX_MANAGEMENT_BPS_LIMIT};
use crate::errors::ErrorCode;
use crate::events::{FactoryAdminUpdated, FactoryFeesUpdated, FactoryInitialized};
use crate::state::{AccountId, Factory, FactoryInfo, FactoryState};

verus! {

// Factory operations: the global singleton carrying the protocol-wide fee
// policy. Its invariants are enforced at every mutation point, never only at
// creation.

/// A proposed factory fee configuration is acceptable: entry/exit fees
/// capped, management-fee bounds ordered and capped, and the two fee-split
/// ratios strictly positive and summing to exactly one hundred percent.
pub open spec fn factory_config_valid(
    entry_fee_bps: int,
    exit_fee_bps: int,
    min_management_fee_bps: int,
    max_management_fee_bps: int,
    vault_creator_fee_ratio_bps: int,
    platform_fee_ratio_bps: int,
) -> bool {
    &&& entry_fee_bps <= MAX_ENTRY_EXIT_BPS_LIMIT
    &&& exit_fee_bps <= MAX_ENTRY_EXIT_BPS_LIMIT
    &&& min_management_fee_bps <= max_management_fee_bps
    &&& max_management_fee_bps <= MAX_MANAGEMENT_BPS_LIMIT
    &&& vault_creator_fee_ratio_bps + platform_fee_ratio_bps == MAX_BPS
    &&& vault_creator_fee_ratio_bps > 0
    &&& platform_fee_ratio_bps > 0
}

/// The code a rejected factory fee configuration is rejected with, following
/// the order the checks run in.
pub open spec fn factory_config_error(
    entry_fee_bps: int,
    exit_fee_bps: int,
    min_management_fee_bps: int,
    max_management_fee_bps: int,
    vault_creator_fee_ratio_bps: int,
    platform_fee_ratio_bps: int,
) -> ErrorCode {
    if entry_fee_bps > MAX_ENTRY_EXIT_BPS_LIMIT || exit_fee_bps > MAX_ENTRY_EXIT_BPS_LIMIT {
        ErrorCode::FeesTooHigh
    } else if min_management_fee_bps > max_management_fee_bps {
        ErrorCode::InvalidFeeRange
    } else if max_management_fee_bps > MAX_MANAGEMENT_BPS_LIMIT {
        ErrorCode::FeesTooHigh
    } else {
        ErrorCode::InvalidFeeRange
    }
}

/// Validates a proposed factory fee configuration.
fn check_factory_config(
    entry_fee_bps: u16,
    exit_fee_bps: u16,
    min_management_fee_bps: u16,
    max_management_fee_bps: u16,
    vault_creator_fee_ratio_bps: u16,
    platform_fee_ratio_bps: u16,
) -> (r: Result<(), ErrorCode>)
    ensures
        r is Ok <==> factory_config_valid(
            entry_fee_bps as int,
            exit_fee_bps as int,
            min_management_fee_bps as int,
            max_management_fee_bps as int,
            vault_creator_fee_ratio_bps as int,
            platform_fee_ratio_bps as int,
        ),
        r matches Err(e) ==> e == factory_config_error(
            entry_fee_bps as int,
            exit_fee_bps as int,
            min_management_fee_bps as int,
            max_management_fee_bps as int,
            vault_creator_fee_ratio_bps as int,
            platform_fee_ratio_bps as int,
        ),
{
    if entry_fee_bps > MAX_ENTRY_EXIT_BPS_LIMIT || exit_fee_bps > MAX_ENTRY_EXIT_BPS_LIMIT {
        return Err(ErrorCode::FeesTooHigh);
    }
    if min_management_fee_bps > max_management_fee_bps {
        return Err(ErrorCode::InvalidFeeRange);
    }
    if max_management_fee_bps > MAX_MANAGEMENT_BPS_LIMIT {
        return Err(ErrorCode::FeesTooHigh);
    }
    if (vault_creator_fee_ratio_bps as u32) + (platform_fee_ratio_bps as u32) != MAX_BPS as u32 {
        return Err(ErrorCode::InvalidFeeRange);
    }
    if vault_creator_fee_ratio_bps == 0 || platform_fee_ratio_bps == 0 {
        return Err(ErrorCode::InvalidFeeRange);
    }
    Ok(())
}

/// Initializes the factory singleton with its admin, fee recipient, and fee
/// policy. The caller becomes the admin; the vault counter starts at zero and
/// the factory starts Active. Rejects any configuration that violates the fee
/// policy bounds; the already-initialized guard is the host ledger's.
pub fn initialize_factory(
    admin: AccountId,
    fee_recipient: AccountId,
    entry_fee_bps: u16,
    exit_fee_bps: u16,
    vault_creation_fee_usdc: u64,
    min_management_fee_bps: u16,
    max_management_fee_bps: u16,
    vault_creator_fee_ratio_bps: u16,
    platform_fee_ratio_bps: u16,
    now: i64,
) -> (r: Result<(Factory, FactoryInitialized), ErrorCode>)
    ensures
        r is Ok <==> factory_config_valid(
            entry_fee_bps as int,
            exit_fee_bps as int,
            min_management_fee_bps as int,
            max_management_fee_bps as int,
            vault_creator_fee_ratio_bps as int,
            platform_fee_ratio_bps as int,
        ),
        r matches Err(e) ==> e == factory_config_error(
            entry_fee_bps as int,
            exit_fee_bps as int,
            min_management_fee_bps as int,
            max_management_fee_bps as int,
            vault_creator_fee_ratio_bps as int,
            platform_fee_ratio_bps as int,
        ),
        r matches Ok(p) ==> p.0 == (Factory {
            admin,
            fee_recipient,
            vault_count: 0u32,
            state: FactoryState::Active,
            entry_fee_bps,
            exit_fee_bps,
            vault_creation_fee_usdc,
            min_management_fee_bps,
            max_management_fee_bps,
            vault_creator_fee_ratio_bps,
            platform_fee_ratio_bps,
        }) && p.0.wf() && p.1 == (FactoryInitialized {
            admin,
            fee_recipient,
            entry_fee_bps,
            exit_fee_bps,
            vault_creation_fee_usdc,
            min_management_fee_bps,
            max_management_fee_bps,
            vault_creator_fee_ratio_bps,
            platform_fee_ratio_bps,
            timestamp: now,
        }),
{
    check_factory_config(
        entry_fee_bps,
        exit_fee_bps,
        min_management_fee_bps,
        max_management_fee_bps,
        vault_creator_fee_ratio_bps,
        platform_fee_ratio_bps,
    )?;
    let factory = Factory {
        admin,
        fee_recipient,
        vault_count: 0,
        state: FactoryState::Active,
        entry_fee_bps,
        exit_fee_bps,
        vault_creation_fee_usdc,
        min_management_fee_bps,
        max_management_fee_bps,
        vault_creator_fee_ratio_bps,
        platform_fee_ratio_bps,
    };
    let event = FactoryInitialized {
        admin,
        fee_recipient,
        entry_fee_bps,
        exit_fee_bps,
        vault_creation_fee_usdc,
        min_management_fee_bps,
        max_management_fee_bps,
        vault_creator_fee_ratio_bps,
        platform_fee_ratio_bps,
        timestamp: now,
    };
    Ok((factory, event))
}

/// Replaces the factory's entire fee policy. Admin-only; rejects any
/// configuration that violates the fee policy bounds and leaves the factory
/// untouched on rejection.
pub fn update_factory_fees(
    factory: &mut Factory,
    caller: AccountId,
    entry_fee_bps: u16,
    exit_fee_bps: u16,
    vault_creation_fee_usdc: u64,
    min_management_fee_bps: u16,
    max_management_fee_bps: u16,
    vault_creator_fee_ratio_bps: u16,
    platform_fee_ratio_bps: u16,
    now: i64,
) -> (r: Result<FactoryFeesUpdated, ErrorCode>)
    ensures
        r is Ok <==> caller == old(factory).admin && factory_config_valid(
            entry_fee_bps as int,
            exit_fee_bps as int,
            min_management_fee_bps as int,
            max_management_fee_bps as int,
            vault_creator_fee_ratio_bps as int,
            platform_fee_ratio_bps as int,
        ),
        caller != old(factory).admin ==> (r matches Err(e) && e == ErrorCode::Unauthorized),
        caller == old(factory).admin && r is Err ==> (r matches Err(e) && e
            == factory_config_error(
            entry_fee_bps as int,
            exit_fee_bps as int,
            min_management_fee_bps as int,
            max_management_fee_bps as int,
            vault_creator_fee_ratio_bps as int,
            platform_fee_ratio_bps as int,
        )),
        r is Err ==> *final(factory) == *old(factory),
        r matches Ok(ev) ==> *final(factory) == (Factory {
            entry_fee_bps,
            exit_fee_bps,
            vault_creation_fee_usdc,
            min_management_fee_bps,
            max_management_fee_bps,
            vault_creator_fee_ratio_bps,
            platform_fee_ratio_bps,
            ..*old(factory)
        }) && final(factory).wf() && ev == (FactoryFeesUpdated {
            admin: old(factory).admin,
            entry_fee_bps,
            exit_fee_bps,
            vault_creation_fee_usdc,
            min_management_fee_bps,
            max_management_fee_bps,
            vault_creator_fee_ratio_bps,
            platform_fee_ratio_bps,
            timestamp: now,
        }),
{
    if caller != factory.admin {
        return Err(ErrorCode::Unauthorized);
    }
    check_factory_config(
        entry_fee_bps,
        exit_fee_bps,
        min_management_fee_bps,
        max_management_fee_bps,
        vault_creator_fee_ratio_bps,
        platform_fee_ratio_bps,
    )?;
    factory.entry_fee_bps = entry_fee_bps;
    factory.exit_fee_bps = exit_fee_bps;
    factory.vault_creation_fee_usdc = vault_creation_fee_usdc;
    factory.min_management_fee_bps = min_management_fee_bps;
    factory.max_management_fee_bps = max_management_fee_bps;
    factory.vault_creator_fee_ratio_bps = vault_creator_fee_ratio_bps;
    factory.platform_fee_ratio_bps = platform_fee_ratio_bps;
    Ok(FactoryFeesUpdated {
        admin: factory.admin,
        entry_fee_bps,
        exit_fee_bps,
        vault_creation_fee_usdc,
        min_management_fee_bps,
        max_management_fee_bps,
        vault_creator_fee_ratio_bps,
        platform_fee_ratio_bps,
        timestamp: now,
    })
}

/// Hands the factory over to a new admin. Only the current admin may call;
/// rejection leaves the factory untouched.
pub fn update_factory_admin(
    factory: &mut Factory,
    caller: AccountId,
    new_admin: AccountId,
    now: i64,
) -> (r: Result<FactoryAdminUpdated, ErrorCode>)
    ensures
        r is Ok <==> caller == old(factory).admin,
        r matches Err(e) ==> e == ErrorCode::Unauthorized && *final(factory) == *old(factory),
        r matches Ok(ev) ==> *final(factory) == (Factory { admin: new_admin, ..*old(factory) })
            && ev == (FactoryAdminUpdated {
            previous_admin: old(factory).admin,
            new_admin,
            timestamp: now,
        }),
{
    if caller != factory.admin {
        return Err(ErrorCode::Unauthorized);
    }
    let previous_admin = factory.admin;
    factory.admin = new_admin;
    Ok(FactoryAdminUpdated { previous_admin, new_admin, timestamp: now })
}

/// Snapshot of the factory's configuration and vault count.
pub fn get_factory_info(factory: &Factory, factory_address: AccountId) -> (info: FactoryInfo)
    ensures
        info == (FactoryInfo {
            factory_address,
            admin: factory.admin,
            fee_recipient: factory.fee_recipient,
            vault_count: factory.vault_count,
            state: factory.state,
            entry_fee_bps: factory.entry_fee_bps,
            exit_fee_bps: factory.exit_fee_bps,
            vault_creation_fee_usdc: factory.vault_creation_fee_usdc,
            min_management_fee_bps: factory.min_management_fee_bps,
            max_management_fee_bps: factory.max_management_fee_bps,
            vault_creator_fee_ratio_bps: factory.vault_creator_fee_ratio_bps,
            platform_fee_ratio_bps: factory.platform_fee_ratio_bps,
        }),
{
    FactoryInfo {
        factory_address,
        admin: factory.admin,
        fee_recipient: factory.fee_recipient,
        vault_count: factory.vault_count,
        state: factory.state,
        entry_fee_bps: factory.entry_fee_bps,
        exit_fee_bps: factory.exit_fee_bps,
        vault_creation_fee_usdc: factory.vault_creation_fee_usdc,
        min_management_fee_bps: factory.min_management_fee_bps,
        max_management_fee_bps: factory.max_management_fee_bps,
        vault_creator_fee_ratio_bps: factory.vault_creator_fee_ratio_bps,
        platform_fee_ratio_bps: factory.platform_fee_ratio_bps,
    }
}

/// Every well-formed factory splits management fees exactly: the creator and
/// platform ratios sum to one hundred percent, and both are strictly
/// positive. Initialization and every fees update enforce this; any other
/// sum is rejected.
pub proof fn lemma_fee_ratio_split_total(f: Factory)
    requires
        f.wf(),
    ensures
        f.vault_creator_fee_ratio_bps + f.platform_fee_ratio_bps == MAX_BPS,
        f.vault_creator_fee_ratio_bps > 0,
        f.platform_fee_ratio_bps > 0,
{
}

} // verus!
