//! Protocol bootstrap.

use vstd::prelude::*;

use crate::events::FactoryInitialized;
use crate::state::Factory;

verus! {

/// Initializes the protocol-wide configuration record.
///
/// Records the administrator, the defaults handed to pools created without
/// their own quorum or window, the platform's fee percentage, and the
/// designated fee-currency mint.
pub fn initialize_factory(
    authority: u64,
    default_quorum: u64,
    default_voting_window: i64,
    platform_fee_percentage: u64,
    usdc_mint: u64,
) -> (r: (Factory, FactoryInitialized))
    ensures
        r.0 == (Factory {
            authority,
            default_quorum,
            default_voting_window,
            platform_fee_percentage,
            usdc_mint,
        }),
        r.1 == (FactoryInitialized {
            authority,
            default_quorum,
            default_voting_window,
            platform_fee_percentage,
            usdc_mint,
        }),
{
    let factory = Factory {
        authority,
        default_quorum,
        default_voting_window,
        platform_fee_percentage,
        usdc_mint,
    };
    let event = FactoryInitialized {
        authority,
        default_quorum,
        default_voting_window,
        platform_fee_percentage,
        usdc_mint,
    };
    (factory, event)
}

} // verus!
