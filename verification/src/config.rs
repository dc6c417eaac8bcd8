//! Sale configuration: the fixed unit price, the decimal scaling factor of the
//! fungible asset, and the per-buyer cap.
//!
//! The deployed sale runs with one fixed set of values, but they are carried in
//! an explicit configuration value rather than baked into the logic, so that
//! alternate values can be exercised.

use vstd::prelude::*;

verus! {

/// Native-currency cost of one whole token in the deployed sale.
pub const LAMPORTS_PER_TOKEN: u64 = 1_000_000;

/// Raw sub-units per whole token of the fungible asset in the deployed sale.
pub const TOKEN_DECIMALS: u64 = 1_000_000_000;

/// Maximum cumulative whole tokens one buyer may ever purchase in the deployed
/// sale.
pub const MAX_USER_TOTAL_LIMIT: u64 = 2000;

/// The constants a sale runs under, fixed when the vault is created.
#[derive(Clone, Copy, Debug, PartialEq, Eq, Structural)]
pub struct IcoConfig {
    /// Native-currency cost of one whole token.
    pub lamports_per_token: u64,
    /// Raw sub-units per whole token; every vault balance is kept scaled by
    /// this factor.
    pub token_decimals: u64,
    /// Maximum cumulative whole tokens per buyer.
    pub max_user_total_limit: u64,
}

impl IcoConfig {
    /// A configuration makes sense only if a whole token is at least one raw
    /// sub-unit: with a zero scaling factor the vault balance could not back
    /// the outstanding supply.
    pub open spec fn wf(self) -> bool {
        self.token_decimals >= 1
    }

    /// The configuration of the deployed sale.
    pub fn standard() -> (c: IcoConfig)
        ensures
            c.lamports_per_token == LAMPORTS_PER_TOKEN,
            c.token_decimals == TOKEN_DECIMALS,
            c.max_user_total_limit == MAX_USER_TOTAL_LIMIT,
            c.wf(),
    {
        IcoConfig {
            lamports_per_token: LAMPORTS_PER_TOKEN,
            token_decimals: TOKEN_DECIMALS,
            max_user_total_limit: MAX_USER_TOTAL_LIMIT,
        }
    }
}

} // verus!
