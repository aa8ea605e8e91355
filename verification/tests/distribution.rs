use claim_custody::addresses::Address;
use claim_custody::instructions::create_pool;
use claim_custody::instructions::deposit_from_nft_sale;
use claim_custody::instructions::fanpass::ErrorCode;
use claim_custody::instructions::initialize_factory;
use claim_custody::instructions::verify_fan_pass;
use claim_custody::state::NftOwnership;

#[test]
fn sale_revenue_splits_into_fee_pool_and_creator_shares() {
    // With a 5 percent platform fee, 1000 splits into 50 / 700 / 250.
    let (factory, _fev) = initialize_factory(1, 3, 3600, 5, 9);
    let (mut pool, mut vault, _ev) = create_pool(42, 3, 3600, &factory);
    let ev = deposit_from_nft_sale(&mut pool, &mut vault, &factory, 1000)
        .expect("the split should succeed");
    assert_eq!(ev.platform_fee, 50);
    assert_eq!(ev.creator_pool_amount, 700);
    assert_eq!(ev.creator_amount, 250);
    assert_eq!(ev.total_amount, 1000);
    assert_eq!(pool.total_deposited, 700);
    assert_eq!(vault.balance, 700);
}

#[test]
fn rounding_dust_goes_to_the_creator() {
    // 999 at 5 percent: fee 49, pool 699, creator absorbs the remainder 251.
    let (factory, _fev) = initialize_factory(1, 3, 3600, 5, 9);
    let (mut pool, mut vault, _ev) = create_pool(42, 3, 3600, &factory);
    let ev = deposit_from_nft_sale(&mut pool, &mut vault, &factory, 999).unwrap();
    assert_eq!(ev.platform_fee, 49);
    assert_eq!(ev.creator_pool_amount, 699);
    assert_eq!(ev.creator_amount, 251);
    assert_eq!(
        ev.platform_fee + ev.creator_pool_amount + ev.creator_amount,
        999
    );
    assert_eq!(pool.total_deposited, 699);
}

#[test]
fn zero_revenue_distributes_zero() {
    let (factory, _fev) = initialize_factory(1, 3, 3600, 5, 9);
    let (mut pool, mut vault, _ev) = create_pool(42, 3, 3600, &factory);
    let ev = deposit_from_nft_sale(&mut pool, &mut vault, &factory, 0).unwrap();
    assert_eq!(ev.platform_fee, 0);
    assert_eq!(ev.creator_pool_amount, 0);
    assert_eq!(ev.creator_amount, 0);
    assert_eq!(pool.total_deposited, 0);
}

#[test]
fn an_overflowing_share_product_fails_and_moves_nothing() {
    let (factory, _fev) = initialize_factory(1, 3, 3600, 5, 9);
    let (mut pool, mut vault, _ev) = create_pool(42, 3, 3600, &factory);
    assert_eq!(
        deposit_from_nft_sale(&mut pool, &mut vault, &factory, u64::MAX),
        Err(ErrorCode::MathOverflow)
    );
    assert_eq!(pool.total_deposited, 0);
    assert_eq!(vault.balance, 0);
}

#[test]
fn a_fee_above_the_pool_share_complement_fails() {
    // At 31 percent the fee plus the fixed 70 percent pool share would
    // exceed the revenue, leaving the creator a negative remainder.
    let (factory, _fev) = initialize_factory(1, 3, 3600, 31, 9);
    let (mut pool, mut vault, _ev) = create_pool(42, 3, 3600, &factory);
    assert_eq!(
        deposit_from_nft_sale(&mut pool, &mut vault, &factory, 1000),
        Err(ErrorCode::MathOverflow)
    );
    assert_eq!(pool.total_deposited, 0);
}

#[test]
fn fan_pass_verifies_the_owner_of_the_collection() {
    let ownership = NftOwnership {
        owner: 7,
        nft_mint: 55,
        creator_collection: Address::Collection { mint: 55 },
        creator: 42,
        registered_at: 1,
    };
    assert_eq!(verify_fan_pass(7, 55, &ownership), Ok(()));
}

#[test]
fn fan_pass_rejects_a_non_owner() {
    let ownership = NftOwnership {
        owner: 7,
        nft_mint: 55,
        creator_collection: Address::Collection { mint: 55 },
        creator: 42,
        registered_at: 1,
    };
    assert_eq!(verify_fan_pass(8, 55, &ownership), Err(ErrorCode::NotNftOwner));
}

#[test]
fn fan_pass_rejects_a_foreign_collection() {
    let ownership = NftOwnership {
        owner: 7,
        nft_mint: 55,
        creator_collection: Address::Collection { mint: 56 },
        creator: 42,
        registered_at: 1,
    };
    assert_eq!(
        verify_fan_pass(7, 55, &ownership),
        Err(ErrorCode::InvalidNftCollection)
    );
}
