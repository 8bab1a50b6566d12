//! Per-user override settings.  Wherever a maximum is consulted, resolution
//! is three-tiered: the order's own override wins, then the user's, then the
//! contract default.

use vstd::prelude::*;

verus! {

/// A user's custom configuration.
#[derive(Clone, Debug, PartialEq, Eq)]
pub struct UserConfig {
    /// Override for the maximum number of route hops.
    pub max_hops: Option<u32>,
    /// Override for the maximum swap spread, as a fraction with eighteen
    /// decimal places.
    pub max_spread: Option<u128>,
}

impl Default for UserConfig {
    /// The configuration of a user who never set one: no overrides.
    fn default() -> (r: UserConfig)
        ensures
            r.max_hops is None,
            r.max_spread is None,
    {
        UserConfig { max_hops: None, max_spread: None }
    }
}

/// The effective value of a capped setting: the order's override where
/// given, else the user's override, else the contract default.
pub open spec fn spec_resolve<T>(
    order_override: Option<T>,
    user_override: Option<T>,
    contract_default: T,
) -> T {
    match order_override {
        Some(v) => v,
        None => match user_override {
            Some(v) => v,
            None => contract_default,
        },
    }
}

/// Three-tier resolution of `max_hops`.
pub fn resolve_max_hops(
    order_override: Option<u32>,
    user_override: Option<u32>,
    contract_default: u32,
) -> (r: u32)
    ensures
        r == spec_resolve(order_override, user_override, contract_default),
{
    match order_override {
        Some(v) => v,
        None => match user_override {
            Some(v) => v,
            None => contract_default,
        },
    }
}

/// Three-tier resolution of `max_spread`.
pub fn resolve_max_spread(
    order_override: Option<u128>,
    user_override: Option<u128>,
    contract_default: u128,
) -> (r: u128)
    ensures
        r == spec_resolve(order_override, user_override, contract_default),
{
    match order_override {
        Some(v) => v,
        None => match user_override {
            Some(v) => v,
            None => contract_default,
        },
    }
}

} // verus!
