//! The engine's operations.
//!
//! Every operation executes as one atomic unit against the records it is
//! handed: it either completes in full or fails with a typed error and
//! leaves every record exactly as it was. Time enters as a plain `now`
//! timestamp; money enters and leaves through the vault's modeled balance.

pub mod claims;
pub mod creator_pool;
pub mod factory;
pub mod fanpass;
pub mod voting;

pub use claims::cancel_claim;
pub use claims::distribute_to_nft_holder;
pub use claims::file_claim;
pub use claims::finalize_claim;
pub use claims::finalize_claim_with_distribution;
pub use claims::payout_claim;
pub use claims::refund_claim;
pub use creator_pool::create_pool;
pub use creator_pool::deposit_to_pool;
pub use creator_pool::withdraw_from_pool;
pub use factory::initialize_factory;
pub use fanpass::deposit_from_nft_sale;
pub use fanpass::verify_fan_pass;
pub use voting::change_vote;
pub use voting::vote;
