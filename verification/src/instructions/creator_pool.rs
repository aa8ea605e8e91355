//! Pool creation and the fan-facing deposit / creator-facing withdraw.

use vstd::prelude::*;

use crate::addresses::pool_addr;
use crate::addresses::vault_addr;
use crate::events::CreatorPoolCreated;
use crate::state::creator_pool::CreatorPool;
use crate::state::creator_pool::PoolStatus;
use crate::state::vault::custody_ok;
use crate::state::vault::Vault;
use crate::state::Factory;

verus! {

/// Failures of the pool ledger operations.
#[derive(Clone, Copy, Debug, PartialEq, Eq, Structural)]
pub enum ErrorCode {
    /// A balance or counter would overflow.
    MathOverflow,
    /// The pool's undistributed balance does not cover the request.
    InsufficientFunds,
}

/// Creates the pool of `creator`, with its empty custody vault.
///
/// A zero quorum or window asks for the protocol default; a positive value
/// overrides it. The pool starts `Active` with all counters at zero, and
/// its vault address is derived from the creator's key, so only the
/// engine's own operations can move funds out of it.
pub fn create_pool(
    creator: u64,
    voting_quorum: u64,
    voting_window: i64,
    factory: &Factory,
) -> (r: (CreatorPool, Vault, CreatorPoolCreated))
    ensures
        r.0 == (CreatorPool {
            creator,
            usdc_mint: 0,
            usdc_vault: vault_addr(creator),
            total_deposited: 0,
            total_withdrawn: 0,
            voting_quorum: if voting_quorum > 0 {
                voting_quorum
            } else {
                factory.default_quorum
            },
            voting_window: if voting_window > 0 {
                voting_window
            } else {
                factory.default_voting_window
            },
            status: PoolStatus::Active,
            claim_count: 0,
        }),
        r.1 == (Vault { creator, balance: 0, refunded_out: 0 }),
        custody_ok(r.0, r.1),
        r.2 == (CreatorPoolCreated {
            creator,
            pool: pool_addr(creator),
            voting_quorum: r.0.voting_quorum,
            voting_window: r.0.voting_window,
        }),
{
    let quorum = if voting_quorum > 0 {
        voting_quorum
    } else {
        factory.default_quorum
    };
    let window = if voting_window > 0 {
        voting_window
    } else {
        factory.default_voting_window
    };
    let pool = CreatorPool {
        creator,
        usdc_mint: 0,
        usdc_vault: crate::addresses::derive_vault_address(creator),
        total_deposited: 0,
        total_withdrawn: 0,
        voting_quorum: quorum,
        voting_window: window,
        status: PoolStatus::Active,
        claim_count: 0,
    };
    let vault = Vault { creator, balance: 0, refunded_out: 0 };
    let event = CreatorPoolCreated {
        creator,
        pool: crate::addresses::derive_pool_address(creator),
        voting_quorum: quorum,
        voting_window: window,
    };
    (pool, vault, event)
}

/// Books a fan's deposit of `amount` into the pool's vault.
///
/// The caller has already moved the funds from the fan to the vault's
/// custody account; this operation books them. It fails with
/// `MathOverflow`, booking nothing, exactly when the pool's running
/// deposit total cannot absorb the amount; the vault balance itself can
/// then always absorb it, because custody keeps the balance no larger
/// than the total.
pub fn deposit_to_pool(creator_pool: &mut CreatorPool, vault: &mut Vault, amount: u64) -> (r:
    Result<(), ErrorCode>)
    requires
        custody_ok(*old(creator_pool), *old(vault)),
    ensures
        custody_ok(*final(creator_pool), *final(vault)),
        r is Ok <==> old(creator_pool).total_deposited + amount <= u64::MAX,
        r is Ok ==> *final(creator_pool) == (CreatorPool {
            total_deposited: (old(creator_pool).total_deposited + amount) as u64,
            ..*old(creator_pool)
        }),
        r is Ok ==> *final(vault) == (Vault {
            balance: (old(vault).balance + amount) as u64,
            ..*old(vault)
        }),
        r is Err ==> r == Err::<(), ErrorCode>(ErrorCode::MathOverflow),
        r is Err ==> *final(creator_pool) == *old(creator_pool) && *final(vault) == *old(vault),
{
    match creator_pool.total_deposited.checked_add(amount) {
        Some(new_total) => {
            creator_pool.total_deposited = new_total;
            vault.balance = vault.balance + amount;
            Ok(())
        },
        None => Err(ErrorCode::MathOverflow),
    }
}

/// Withdraws `amount` of the pool's undistributed balance to the creator.
///
/// Only the pool's creator may withdraw, and only up to what was deposited
/// and neither withdrawn nor already distributed as refunds; otherwise the
/// operation fails with `InsufficientFunds` and moves nothing. On success
/// the funds leave the vault and are booked on `total_withdrawn`.
pub fn withdraw_from_pool(
    creator_pool: &mut CreatorPool,
    vault: &mut Vault,
    creator: u64,
    amount: u64,
) -> (r: Result<(), ErrorCode>)
    requires
        custody_ok(*old(creator_pool), *old(vault)),
        creator == old(creator_pool).creator,
    ensures
        custody_ok(*final(creator_pool), *final(vault)),
        r is Ok <==> amount <= old(vault).balance,
        r is Ok ==> *final(creator_pool) == (CreatorPool {
            total_withdrawn: (old(creator_pool).total_withdrawn + amount) as u64,
            ..*old(creator_pool)
        }),
        r is Ok ==> *final(vault) == (Vault {
            balance: (old(vault).balance - amount) as u64,
            ..*old(vault)
        }),
        r is Err ==> r == Err::<(), ErrorCode>(ErrorCode::InsufficientFunds),
        r is Err ==> *final(creator_pool) == *old(creator_pool) && *final(vault) == *old(vault),
{
    if !(amount <= creator_pool.total_deposited - creator_pool.total_withdrawn) {
        return Err(ErrorCode::InsufficientFunds);
    }
    if !(amount <= vault.balance) {
        // The books would allow it, but the funds have already left the
        // vault as refund distributions; the underlying transfer cannot go
        // through.
        return Err(ErrorCode::InsufficientFunds);
    }
    vault.balance = vault.balance - amount;
    creator_pool.total_withdrawn = creator_pool.total_withdrawn + amount;
    Ok(())
}

} // verus!
