//! The contract configuration, as stored.

use vstd::prelude::*;

use crate::msg::ConfigResponse;
use crate::state::State;

verus! {

/// Reads the contract configuration.
pub fn get_config(state: &State) -> (r: ConfigResponse)
    ensures
        r.max_hops == state.config.max_hops,
        r.max_spread == state.config.max_spread,
        r.whitelisted_tokens@ == state.config.whitelisted_tokens@,
        r.whitelisted_tip_tokens@ == state.config.whitelisted_tip_tokens@,
        r.factory_addr == state.config.factory_addr,
        r.router_addr == state.config.router_addr,
{
    let c = state.config.duplicate();
    ConfigResponse {
        max_hops: c.max_hops,
        max_spread: c.max_spread,
        whitelisted_tokens: c.whitelisted_tokens,
        whitelisted_tip_tokens: c.whitelisted_tip_tokens,
        factory_addr: c.factory_addr,
        router_addr: c.router_addr,
    }
}

} // verus!
