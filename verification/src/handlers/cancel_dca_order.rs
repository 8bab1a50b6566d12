//! Cancelling an order.  Only the owner may cancel; a native deposit's
//! remaining amount is refunded by one transfer message, and the order
//! leaves the store in the same commit.

use vstd::prelude::*;

use crate::error::err_is;
use crate::error::ContractError;
use crate::helpers::asset_transfer;
use crate::helpers::spec_asset_transfer;
use crate::msg::MessageInfo;
use crate::response::is_text_attr;
use crate::response::is_uint_attr;
use crate::response::push_text_attr;
use crate::response::push_uint_attr;
use crate::response::Attribute;
use crate::response::OutMsg;
use crate::response::Response;
use crate::state::lemma_ids_remove;
use crate::state::spec_has_order;
use crate::state::spec_order_index;
use crate::state::State;

verus! {

/// Cancels the order with the given id.
///
/// On success the order is removed from the store — no query sees it again
/// — and, where the deposit is native and something remains of it, exactly
/// one transfer message refunds that remainder to the owner.  A call by
/// anyone but the owner fails with `Unauthorized` and changes nothing.
pub fn cancel_dca_order(state: &mut State, info: &MessageInfo, id: u64) -> (r: Result<
    Response,
    ContractError,
>)
    requires
        old(state).wf(),
    ensures
        final(state).wf(),
        r is Err ==> *final(state) == *old(state),
        r is Ok <==> spec_has_order(old(state).orders@, id) && old(state).orders@[spec_order_index(
            old(state).orders@,
            id,
        )].owner@ == info.sender@,
        !spec_has_order(old(state).orders@, id) ==> err_is(r, ContractError::NonExistentDca {}),
        spec_has_order(old(state).orders@, id) && old(state).orders@[spec_order_index(
            old(state).orders@,
            id,
        )].owner@ != info.sender@ ==> err_is(r, ContractError::Unauthorized {}),
        r is Ok ==> final(state).orders@ == old(state).orders@.remove(
            spec_order_index(old(state).orders@, id),
        ) && !spec_has_order(final(state).orders@, id),
        final(state).config == old(state).config,
        final(state).dca_id == old(state).dca_id,
        final(state).tip_jars == old(state).tip_jars,
        final(state).user_configs == old(state).user_configs,
        r matches Ok(resp) ==> ({
            let order = old(state).orders@[spec_order_index(old(state).orders@, id)];
            &&& resp.event is None
            &&& resp.attributes@.len() == 2
            &&& is_text_attr(resp.attributes@[0], "action"@, "cancel_dca_order"@)
            &&& is_uint_attr(resp.attributes@[1], "id"@, id as u128)
            &&& if order.initial_asset.info.spec_is_native() && order.initial_asset.amount > 0 {
                resp.messages@ == seq![
                    spec_asset_transfer(
                        order.initial_asset.info,
                        order.initial_asset.amount,
                        order.owner,
                    ),
                ]
            } else {
                resp.messages@ == Seq::<OutMsg>::empty()
            }
        }),
{
    let idx = match state.find_order(id) {
        None => {
            return Err(ContractError::NonExistentDca {});
        },
        Some(i) => i,
    };
    if !(state.orders[idx].owner == info.sender) {
        return Err(ContractError::Unauthorized {});
    }
    let mut messages: Vec<OutMsg> = Vec::new();
    let order = &state.orders[idx];
    if order.initial_asset.info.is_native_token() && order.initial_asset.amount > 0 {
        let refund = asset_transfer(
            &order.initial_asset.info,
            order.initial_asset.amount,
            &order.owner,
        );
        messages.push(refund);
        proof {
            assert(messages@ =~= seq![
                spec_asset_transfer(
                    order.initial_asset.info,
                    order.initial_asset.amount,
                    order.owner,
                ),
            ]);
        }
    }
    let ghost s1 = *state;
    state.orders.remove(idx);
    proof {
        lemma_ids_remove(s1.orders@, idx as int);
    }
    let mut attrs: Vec<Attribute> = Vec::new();
    push_text_attr(&mut attrs, "action", "cancel_dca_order");
    push_uint_attr(&mut attrs, "id", id as u128);
    Ok(Response { messages, attributes: attrs, event: None })
}

} // verus!
