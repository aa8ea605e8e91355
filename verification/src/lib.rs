//! Claim lifecycle and fund custody engine for per-creator insurance pools.
//!
//! Supporters fund a pool tied to one creator; the creator files claims
//! against the pool; supporters vote to approve or reject each claim inside
//! a fixed window; an approved claim pays the vault out to the creator, a
//! rejected claim leaves the vault in custody for distribution back to
//! collectible holders.
//!
//! The crate models every persistent record as plain data (identities are
//! opaque `u64` keys, record addresses are derived deterministically from
//! their parent keys) and verifies the rules that guard the funds: the claim
//! state machine, the vote tally, quorum-gated settlement, and the custody
//! accounting that keeps every pool's books conserved.
//!
//! Moving actual currency, looking up collectible ownership, and reading the
//! clock are jobs of an outside ledger, registry and time source; callers
//! perform them and hand this crate the resulting plain values (balances,
//! owner keys, timestamps).

pub mod addresses;
pub mod events;
pub mod instructions;
pub mod laws;
pub mod state;
