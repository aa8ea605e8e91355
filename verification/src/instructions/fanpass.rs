//! Collectible sale revenue distribution and membership verification.

use vstd::prelude::*;

use crate::addresses::collection_addr;
use crate::addresses::pool_addr;
use crate::events::NftSaleRevenueDistributed;
use crate::state::creator_pool::CreatorPool;
use crate::state::nft_ownership::NftOwnership;
use crate::state::vault::custody_ok;
use crate::state::vault::Vault;
use crate::state::Factory;

verus! {

/// Failures of the revenue and membership operations.
#[derive(Clone, Copy, Debug, PartialEq, Eq, Structural)]
pub enum ErrorCode {
    /// A share computation or balance would overflow.
    MathOverflow,
    /// The caller does not own the collectible.
    NotNftOwner,
    /// The collectible does not belong to the creator's collection.
    InvalidNftCollection,
}

/// The platform's cut of a sale: `fee_pct` percent, rounded down.
pub open spec fn platform_fee_of(total_amount: u64, fee_pct: u64) -> int {
    (total_amount * fee_pct) / 100
}

/// The pool's cut of a sale: a fixed 70 percent, rounded down.
pub open spec fn pool_share_of(total_amount: u64) -> int {
    (total_amount * 70) / 100
}

/// The creator's cut of a sale: whatever the other two shares leave,
/// which absorbs both divisions' rounding remainders.
pub open spec fn creator_share_of(total_amount: u64, fee_pct: u64) -> int {
    total_amount - platform_fee_of(total_amount, fee_pct) - pool_share_of(total_amount)
}

/// When `deposit_from_nft_sale` succeeds: both products fit a balance,
/// the two shares leave the creator a non-negative remainder, and the
/// pool's deposit total can absorb its share.
pub open spec fn revenue_split_ok(pool: CreatorPool, total_amount: u64, fee_pct: u64) -> bool {
    &&& total_amount * fee_pct <= u64::MAX
    &&& total_amount * 70 <= u64::MAX
    &&& platform_fee_of(total_amount, fee_pct) + pool_share_of(total_amount) <= total_amount
    &&& pool.total_deposited + pool_share_of(total_amount) <= u64::MAX
}

/// Splits sale revenue across the pool's vault, the creator and the
/// platform.
///
/// Of `total_amount`, the platform keeps its fee percentage, the vault
/// locks a fixed 70 percent (booked on `total_deposited`), and the
/// creator receives the remainder, including all rounding dust. The
/// caller moves the three shares in the same atomic step; partial
/// distribution is not an outcome. Fails with `MathOverflow`, moving
/// nothing, when a share computation or the deposit total would overflow.
pub fn deposit_from_nft_sale(
    creator_pool: &mut CreatorPool,
    vault: &mut Vault,
    factory: &Factory,
    total_amount: u64,
) -> (r: Result<NftSaleRevenueDistributed, ErrorCode>)
    requires
        custody_ok(*old(creator_pool), *old(vault)),
    ensures
        custody_ok(*final(creator_pool), *final(vault)),
        r is Ok <==> revenue_split_ok(
            *old(creator_pool),
            total_amount,
            factory.platform_fee_percentage,
        ),
        r matches Ok(ev) ==> {
            &&& *final(creator_pool) == (CreatorPool {
                total_deposited: (old(creator_pool).total_deposited + pool_share_of(
                    total_amount,
                )) as u64,
                ..*old(creator_pool)
            })
            &&& *final(vault) == (Vault {
                balance: (old(vault).balance + pool_share_of(total_amount)) as u64,
                ..*old(vault)
            })
            &&& ev == (NftSaleRevenueDistributed {
                creator: old(creator_pool).creator,
                creator_pool: pool_addr(old(creator_pool).creator),
                total_amount,
                creator_pool_amount: pool_share_of(total_amount) as u64,
                creator_amount: creator_share_of(
                    total_amount,
                    factory.platform_fee_percentage,
                ) as u64,
                platform_fee: platform_fee_of(total_amount, factory.platform_fee_percentage) as u64,
            })
        },
        r is Err ==> r == Err::<NftSaleRevenueDistributed, ErrorCode>(ErrorCode::MathOverflow)
            && *final(creator_pool) == *old(creator_pool) && *final(vault) == *old(vault),
{
    let platform_fee = match total_amount.checked_mul(factory.platform_fee_percentage) {
        Some(product) => product / 100,
        None => {
            return Err(ErrorCode::MathOverflow);
        },
    };
    let vault_amount = match total_amount.checked_mul(70) {
        Some(product) => product / 100,
        None => {
            return Err(ErrorCode::MathOverflow);
        },
    };
    let after_fee = match total_amount.checked_sub(platform_fee) {
        Some(rest) => rest,
        None => {
            return Err(ErrorCode::MathOverflow);
        },
    };
    let creator_amount = match after_fee.checked_sub(vault_amount) {
        Some(rest) => rest,
        None => {
            return Err(ErrorCode::MathOverflow);
        },
    };
    let new_total = match creator_pool.total_deposited.checked_add(vault_amount) {
        Some(total) => total,
        None => {
            return Err(ErrorCode::MathOverflow);
        },
    };
    creator_pool.total_deposited = new_total;
    vault.balance = vault.balance + vault_amount;
    Ok(NftSaleRevenueDistributed {
        creator: creator_pool.creator,
        creator_pool: crate::addresses::derive_pool_address(creator_pool.creator),
        total_amount,
        creator_pool_amount: vault_amount,
        creator_amount,
        platform_fee,
    })
}

/// Verifies that `fan` owns a collectible of the creator's collection.
///
/// Succeeds exactly when the ownership record names the fan as owner and
/// points at the collection record derived from the collectible's mint;
/// otherwise it reports which of the two checks failed. No record moves.
pub fn verify_fan_pass(fan: u64, nft_mint: u64, nft_ownership: &NftOwnership) -> (r: Result<
    (),
    ErrorCode,
>)
    requires
        nft_ownership.nft_mint == nft_mint,
    ensures
        r is Ok <==> (nft_ownership.owner == fan && nft_ownership.creator_collection
            == collection_addr(nft_mint)),
        nft_ownership.owner != fan ==> r == Err::<(), ErrorCode>(ErrorCode::NotNftOwner),
        nft_ownership.owner == fan && nft_ownership.creator_collection != collection_addr(nft_mint)
            ==> r == Err::<(), ErrorCode>(ErrorCode::InvalidNftCollection),
{
    if !(nft_ownership.owner == fan) {
        return Err(ErrorCode::NotNftOwner);
    }
    let expected = crate::addresses::Address::Collection { mint: nft_mint };
    if !(nft_ownership.creator_collection == expected) {
        return Err(ErrorCode::InvalidNftCollection);
    }
    Ok(())
}

} // verus!
