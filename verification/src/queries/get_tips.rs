//! The tip whitelist: the assets a jar may be funded with, each with the
//! fee a bot earns per hop when paid in it.

use vstd::prelude::*;

use crate::dca::TipAssetInfo;
use crate::state::State;

verus! {

/// Reads the whitelisted tip assets and their per-hop fees.
#[verifier::loop_isolation(false)]
pub fn get_tips(state: &State) -> (r: Vec<TipAssetInfo>)
    ensures
        r@ == state.config.whitelisted_tip_tokens@,
{
    let mut result: Vec<TipAssetInfo> = Vec::new();
    let mut c: usize = 0;
    while c < state.config.whitelisted_tip_tokens.len()
        invariant
            0 <= c <= state.config.whitelisted_tip_tokens@.len(),
            result@ == state.config.whitelisted_tip_tokens@.subrange(0, c as int),
        decreases state.config.whitelisted_tip_tokens@.len() - c,
    {
        result.push(state.config.whitelisted_tip_tokens[c].duplicate());
        c = c + 1;
        proof {
            assert(result@ =~= state.config.whitelisted_tip_tokens@.subrange(0, c as int));
        }
    }
    proof {
        assert(result@ =~= state.config.whitelisted_tip_tokens@);
    }
    result
}

} // verus!
