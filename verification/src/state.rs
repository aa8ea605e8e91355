//! Persistent record types of the protocol.

pub mod claim;
pub mod creator_collection;
pub mod creator_pool;
pub mod factory;
pub mod nft_ownership;
pub mod refund_distribution;
pub mod vault;
pub mod vote_account;

pub use claim::Claim;
pub use claim::ClaimStatus;
pub use creator_collection::CreatorCollection;
pub use creator_pool::CreatorPool;
pub use creator_pool::PoolStatus;
pub use factory::Factory;
pub use nft_ownership::NftOwnership;
pub use refund_distribution::RefundDistribution;
pub use vault::Vault;
pub use vote_account::VoteAccount;
pub use vote_account::VoteChoice;
