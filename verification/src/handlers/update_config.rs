//! Administering the contract configuration.  Authorization rests with the
//! factory contract's owner, read by the caller before the operation runs;
//! each provided field overwrites its setting, omitted ones stay.  Loosened
//! or tightened whitelists never touch existing orders: whitelist
//! membership is judged only when a purchase runs.

use vstd::prelude::*;

use crate::asset::AssetInfo;
use crate::dca::TipAssetInfo;
use crate::error::err_is;
use crate::error::ContractError;
use crate::msg::Externals;
use crate::msg::MessageInfo;
use crate::response::is_text_attr;
use crate::response::push_text_attr;
use crate::response::Attribute;
use crate::response::Response;
use crate::state::State;

verus! {

/// Overwrites the provided configuration fields.
///
/// Only the factory owner may call this; anyone else fails with
/// `Unauthorized` and changes nothing.  On success each provided field
/// holds the new value, each omitted field its old one, and everything
/// outside the configuration is untouched.
pub fn update_config(
    state: &mut State,
    info: &MessageInfo,
    ext: &Externals,
    max_hops: Option<u32>,
    whitelisted_tokens: Option<Vec<AssetInfo>>,
    whitelisted_tip_tokens: Option<Vec<TipAssetInfo>>,
    max_spread: Option<u128>,
) -> (r: Result<Response, ContractError>)
    requires
        old(state).wf(),
    ensures
        final(state).wf(),
        r is Err ==> *final(state) == *old(state),
        r is Ok <==> info.sender@ == ext.factory_owner@,
        info.sender@ != ext.factory_owner@ ==> err_is(r, ContractError::Unauthorized {}),
        final(state).orders == old(state).orders,
        final(state).dca_id == old(state).dca_id,
        final(state).tip_jars == old(state).tip_jars,
        final(state).user_configs == old(state).user_configs,
        r is Ok ==> final(state).config.max_hops == (match max_hops {
            Some(v) => v,
            None => old(state).config.max_hops,
        }),
        r is Ok ==> final(state).config.max_spread == (match max_spread {
            Some(v) => v,
            None => old(state).config.max_spread,
        }),
        r is Ok ==> final(state).config.whitelisted_tokens == (match whitelisted_tokens {
            Some(v) => v,
            None => old(state).config.whitelisted_tokens,
        }),
        r is Ok ==> final(state).config.whitelisted_tip_tokens == (match whitelisted_tip_tokens {
            Some(v) => v,
            None => old(state).config.whitelisted_tip_tokens,
        }),
        final(state).config.factory_addr == old(state).config.factory_addr,
        final(state).config.router_addr == old(state).config.router_addr,
        r matches Ok(resp) ==> resp.messages@.len() == 0 && resp.event is None
            && resp.attributes@.len() == 1 && is_text_attr(
            resp.attributes@[0],
            "action"@,
            "update_config"@,
        ),
{
    if !(info.sender == ext.factory_owner) {
        return Err(ContractError::Unauthorized {});
    }
    if let Some(v) = max_hops {
        state.config.max_hops = v;
    }
    if let Some(v) = whitelisted_tokens {
        state.config.whitelisted_tokens = v;
    }
    if let Some(v) = whitelisted_tip_tokens {
        state.config.whitelisted_tip_tokens = v;
    }
    if let Some(v) = max_spread {
        state.config.max_spread = v;
    }
    let mut attrs: Vec<Attribute> = Vec::new();
    push_text_attr(&mut attrs, "action", "update_config");
    Ok(Response { messages: Vec::new(), attributes: attrs, event: None })
}

} // verus!
