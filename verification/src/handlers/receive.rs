//! The token-transfer hook: a token contract calls this after moving
//! tokens into the contract, naming the user the transfer came from and
//! what to do with it.  The only hook is crediting the tokens — whose
//! identity is the calling token contract itself — to that user's tip
//! ledger.

use vstd::prelude::*;

use crate::asset::Asset;
use crate::asset::AssetInfo;
use crate::error::err_is;
use crate::error::ContractError;
use crate::handlers::add_bot_tip::add_bot_tip;
use crate::handlers::add_bot_tip::spec_tip_accepted;
use crate::msg::Cw20HookMsg;
use crate::msg::MessageInfo;
use crate::response::is_text_attr;
use crate::response::is_uint_attr;
use crate::response::Response;
use crate::state::spec_tip_fee;
use crate::state::State;

verus! {

/// The asset a hook call carries: the calling token contract's tokens.
pub open spec fn spec_hook_asset(info: MessageInfo, amount: u128) -> Asset {
    Asset { info: AssetInfo::Token { contract_addr: info.sender }, amount }
}

/// Handles a token transfer into the contract.  `info.sender` is the token
/// contract; `sender` is the user whose transfer it was, and who receives
/// the credit.
pub fn receive(
    state: &mut State,
    info: &MessageInfo,
    sender: &String,
    amount: u128,
    msg: Cw20HookMsg,
) -> (r: Result<Response, ContractError>)
    requires
        old(state).wf(),
    ensures
        final(state).wf(),
        r is Err ==> *final(state) == *old(state),
        r is Ok <==> spec_tip_accepted(*old(state), sender@, spec_hook_asset(*info, amount)),
        amount == 0 ==> err_is(r, ContractError::InvalidZeroAmount {}),
        amount > 0 && spec_tip_fee(
            old(state).config.whitelisted_tip_tokens@,
            spec_hook_asset(*info, amount).info,
        ) is None ==> err_is(r, ContractError::InvalidTipAssetInfo {}),
        r is Ok ==> forall|o: Seq<char>, info2: AssetInfo|
            (#[trigger] final(state).tip_balance(o, info2)) == old(state).tip_balance(o, info2)
                + if o == sender@ && spec_hook_asset(*info, amount).info.matches(info2) {
                amount as int
            } else {
                0
            },
        final(state).config == old(state).config,
        final(state).orders == old(state).orders,
        final(state).dca_id == old(state).dca_id,
        final(state).user_configs == old(state).user_configs,
        r matches Ok(resp) ==> resp.messages@.len() == 0 && resp.event is None
            && resp.attributes@.len() == 2 && is_text_attr(
            resp.attributes@[0],
            "action"@,
            "add_bot_tip"@,
        ) && is_uint_attr(resp.attributes@[1], "tip_amount"@, amount),
{
    match msg {
        Cw20HookMsg::AddBotTips {} => {
            let asset = Asset {
                info: AssetInfo::Token { contract_addr: info.sender.clone() },
                amount,
            };
            add_bot_tip(state, sender, asset)
        },
    }
}

} // verus!
