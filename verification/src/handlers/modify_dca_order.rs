//! Modifying an order.  Only the owner may modify.  A change of the
//! deposited asset settles the funding difference: growing the same asset
//! needs fresh funds or a matching allowance for the difference, shrinking
//! a native deposit refunds the difference, and swapping the asset out
//! refunds a native old deposit in full while the new asset must be funded
//! like a fresh creation.  The modified order then passes the same
//! validations as a created one.  The start time, hop and spread overrides
//! are overwritten outright: passing nothing clears them.

use vstd::prelude::*;

use crate::asset::Asset;
use crate::asset::AssetInfo;
use crate::asset::Coin;
use crate::dca::DcaInfo;
use crate::error::err_is;
use crate::error::ContractError;
use crate::handlers::create_dca_order::spec_start_in_past;
use crate::helpers::asset_transfer;
use crate::helpers::spec_asset_transfer;
use crate::msg::sent_amount;
use crate::msg::spec_allowance;
use crate::msg::spec_sent_amount;
use crate::msg::AllowanceEntry;
use crate::msg::Env;
use crate::msg::Externals;
use crate::msg::MessageInfo;
use crate::response::is_text_attr;
use crate::response::is_uint_attr;
use crate::response::push_text_attr;
use crate::response::push_uint_attr;
use crate::response::Attribute;
use crate::response::OutMsg;
use crate::response::Response;
use crate::state::lemma_ids_update;
use crate::state::spec_has_order;
use crate::state::spec_order_index;
use crate::state::wf_order;
use crate::state::State;

verus! {

/// The order as the modification would leave it: provided fields
/// overwrite, absent ones keep the stored value; the three overrides and
/// the start time are overwritten outright.
pub open spec fn spec_modified_order(
    order: DcaInfo,
    new_initial_asset: Option<Asset>,
    new_target_asset: Option<AssetInfo>,
    new_interval: Option<u64>,
    new_dca_amount: Option<u128>,
    should_reset_purchase_time: bool,
    start_purchase: Option<u64>,
    max_hops: Option<u32>,
    max_spread: Option<u128>,
) -> DcaInfo {
    DcaInfo {
        id: order.id,
        owner: order.owner,
        initial_asset: match new_initial_asset {
            Some(a) => a,
            None => order.initial_asset,
        },
        target_asset: match new_target_asset {
            Some(t) => t,
            None => order.target_asset,
        },
        interval: match new_interval {
            Some(v) => v,
            None => order.interval,
        },
        last_purchase: if should_reset_purchase_time {
            0
        } else {
            order.last_purchase
        },
        dca_amount: match new_dca_amount {
            Some(v) => v,
            None => order.dca_amount,
        },
        start_purchase,
        max_hops,
        max_spread,
    }
}

/// The funding settlement of a deposit change is covered: the difference
/// for a grown same-asset deposit, the full new amount for a swapped-out
/// asset; a kept or shrunk deposit needs nothing new.  A token deposit's
/// allowance must match the new total exactly.
pub open spec fn spec_modify_funded(
    order: DcaInfo,
    new_initial_asset: Option<Asset>,
    funds: Seq<Coin>,
    allowances: Seq<AllowanceEntry>,
    sender: Seq<char>,
) -> bool {
    match new_initial_asset {
        None => true,
        Some(nia) => {
            if order.initial_asset.info.matches(nia.info) {
                if nia.amount >= order.initial_asset.amount {
                    match nia.info {
                        AssetInfo::NativeToken { denom } => spec_sent_amount(funds, denom@) == (
                        nia.amount - order.initial_asset.amount),
                        AssetInfo::Token { contract_addr } => spec_allowance(
                            allowances,
                            contract_addr@,
                            sender,
                        ) == nia.amount,
                    }
                } else {
                    true
                }
            } else {
                match nia.info {
                    AssetInfo::NativeToken { denom } => spec_sent_amount(funds, denom@)
                        == nia.amount,
                    AssetInfo::Token { contract_addr } => spec_allowance(
                        allowances,
                        contract_addr@,
                        sender,
                    ) == nia.amount,
                }
            }
        },
    }
}

/// The refund messages a deposit change produces: the difference of a
/// shrunk native deposit, or the whole remaining old native deposit when
/// the asset is swapped out.
pub open spec fn spec_modify_refunds(
    order: DcaInfo,
    new_initial_asset: Option<Asset>,
    sender: String,
) -> Seq<OutMsg> {
    match new_initial_asset {
        None => Seq::<OutMsg>::empty(),
        Some(nia) => {
            if order.initial_asset.info.matches(nia.info) {
                if nia.amount < order.initial_asset.amount && nia.info.spec_is_native() {
                    seq![
                        spec_asset_transfer(
                            nia.info,
                            (order.initial_asset.amount - nia.amount) as u128,
                            sender,
                        ),
                    ]
                } else {
                    Seq::<OutMsg>::empty()
                }
            } else {
                if order.initial_asset.info.spec_is_native() {
                    seq![
                        spec_asset_transfer(
                            order.initial_asset.info,
                            order.initial_asset.amount,
                            sender,
                        ),
                    ]
                } else {
                    Seq::<OutMsg>::empty()
                }
            }
        },
    }
}

/// The new deposit asset whose funding check failed is native.
pub open spec fn spec_new_asset_native(new_initial_asset: Option<Asset>) -> bool {
    new_initial_asset matches Some(nia) && nia.info.spec_is_native()
}

/// Modifies the order with the given id.
///
/// On success exactly that order is replaced by the modified one and the
/// refund messages of the deposit change go out; nothing else changes.  A
/// call by anyone but the owner fails with `Unauthorized` and changes
/// nothing, as does any failed validation.
#[allow(clippy::too_many_arguments)]
#[verifier::loop_isolation(false)]
pub fn modify_dca_order(
    state: &mut State,
    env: &Env,
    info: &MessageInfo,
    ext: &Externals,
    id: u64,
    new_initial_asset: Option<Asset>,
    new_target_asset: Option<AssetInfo>,
    new_interval: Option<u64>,
    new_dca_amount: Option<u128>,
    should_reset_purchase_time: bool,
    start_purchase: Option<u64>,
    max_hops: Option<u32>,
    max_spread: Option<u128>,
) -> (r: Result<Response, ContractError>)
    requires
        old(state).wf(),
    ensures
        final(state).wf(),
        r is Err ==> *final(state) == *old(state),
        final(state).config == old(state).config,
        final(state).dca_id == old(state).dca_id,
        final(state).tip_jars == old(state).tip_jars,
        final(state).user_configs == old(state).user_configs,
        !spec_has_order(old(state).orders@, id) ==> err_is(r, ContractError::NonExistentDca {}),
        spec_has_order(old(state).orders@, id) ==> ({
            let order = old(state).orders@[spec_order_index(old(state).orders@, id)];
            let modified = spec_modified_order(
                order,
                new_initial_asset,
                new_target_asset,
                new_interval,
                new_dca_amount,
                should_reset_purchase_time,
                start_purchase,
                max_hops,
                max_spread,
            );
            let funded = spec_modify_funded(
                order,
                new_initial_asset,
                info.funds@,
                ext.allowances@,
                info.sender@,
            );
            &&& order.owner@ != info.sender@ ==> err_is(r, ContractError::Unauthorized {})
            &&& order.owner@ == info.sender@ && !funded ==> err_is(
                r,
                if spec_new_asset_native(new_initial_asset) {
                    ContractError::InvalidNativeTokenDeposit {}
                } else {
                    ContractError::InvalidTokenDeposit {}
                },
            )
            &&& order.owner@ == info.sender@ && funded ==> {
                &&& spec_start_in_past(start_purchase, env.block_time) ==> err_is(
                    r,
                    ContractError::StartTimeInPast {},
                )
                &&& !spec_start_in_past(start_purchase, env.block_time)
                    && modified.initial_asset.info.matches(modified.target_asset) ==> err_is(
                    r,
                    ContractError::DuplicateAsset {},
                )
                &&& !spec_start_in_past(start_purchase, env.block_time)
                    && !modified.initial_asset.info.matches(modified.target_asset)
                    && modified.dca_amount > modified.initial_asset.amount ==> err_is(
                    r,
                    ContractError::DepositTooSmall {},
                )
                &&& !spec_start_in_past(start_purchase, env.block_time)
                    && !modified.initial_asset.info.matches(modified.target_asset)
                    && modified.dca_amount == 0 ==> err_is(r, ContractError::DivideByZero {})
                &&& !spec_start_in_past(start_purchase, env.block_time)
                    && !modified.initial_asset.info.matches(modified.target_asset) && 0
                    < modified.dca_amount <= modified.initial_asset.amount
                    && modified.initial_asset.amount as int % modified.dca_amount as int != 0
                    ==> err_is(r, ContractError::IndivisibleDeposit {})
            }
            &&& r is Ok <==> (order.owner@ == info.sender@ && funded && !spec_start_in_past(
                start_purchase,
                env.block_time,
            ) && !modified.initial_asset.info.matches(modified.target_asset) && 0
                < modified.dca_amount <= modified.initial_asset.amount
                && modified.initial_asset.amount as int % modified.dca_amount as int == 0)
            &&& r is Ok ==> final(state).orders@ == old(state).orders@.update(
                spec_order_index(old(state).orders@, id),
                modified,
            )
            &&& r matches Ok(resp) ==> resp.messages@ == spec_modify_refunds(
                order,
                new_initial_asset,
                info.sender,
            ) && resp.event is None && resp.attributes@.len() == 2 && is_text_attr(
                resp.attributes@[0],
                "action"@,
                "modify_dca_order"@,
            ) && is_uint_attr(resp.attributes@[1], "id"@, id as u128)
        }),
        !spec_has_order(old(state).orders@, id) ==> r is Err,
{
    let idx = match state.find_order(id) {
        None => {
            return Err(ContractError::NonExistentDca {});
        },
        Some(i) => i,
    };
    if !(state.orders[idx].owner == info.sender) {
        return Err(ContractError::Unauthorized {});
    }
    let order = state.orders[idx].duplicate();
    let mut messages: Vec<OutMsg> = Vec::new();
    if let Some(nia) = &new_initial_asset {
        if order.initial_asset.info.equal(&nia.info) {
            if nia.amount >= order.initial_asset.amount {
                match &nia.info {
                    AssetInfo::NativeToken { denom } => {
                        if sent_amount(&info.funds, denom) != nia.amount
                            - order.initial_asset.amount {
                            return Err(ContractError::InvalidNativeTokenDeposit {});
                        }
                    },
                    AssetInfo::Token { contract_addr } => {
                        if ext.allowance_of(contract_addr, &info.sender) != nia.amount {
                            return Err(ContractError::InvalidTokenDeposit {});
                        }
                    },
                }
            } else {
                if nia.info.is_native_token() {
                    let refund = asset_transfer(
                        &nia.info,
                        order.initial_asset.amount - nia.amount,
                        &info.sender,
                    );
                    messages.push(refund);
                }
            }
        } else {
            if order.initial_asset.info.is_native_token() {
                let refund = asset_transfer(
                    &order.initial_asset.info,
                    order.initial_asset.amount,
                    &info.sender,
                );
                messages.push(refund);
            }
            match &nia.info {
                AssetInfo::NativeToken { denom } => {
                    if sent_amount(&info.funds, denom) != nia.amount {
                        return Err(ContractError::InvalidNativeTokenDeposit {});
                    }
                },
                AssetInfo::Token { contract_addr } => {
                    if ext.allowance_of(contract_addr, &info.sender) != nia.amount {
                        return Err(ContractError::InvalidTokenDeposit {});
                    }
                },
            }
        }
    }
    let modified = DcaInfo {
        id: order.id,
        owner: order.owner,
        initial_asset: match new_initial_asset {
            Some(a) => a,
            None => order.initial_asset,
        },
        target_asset: match new_target_asset {
            Some(t) => t,
            None => order.target_asset,
        },
        interval: match new_interval {
            Some(v) => v,
            None => order.interval,
        },
        last_purchase: if should_reset_purchase_time {
            0
        } else {
            order.last_purchase
        },
        dca_amount: match new_dca_amount {
            Some(v) => v,
            None => order.dca_amount,
        },
        start_purchase,
        max_hops,
        max_spread,
    };
    if let Some(s) = modified.start_purchase {
        if s < env.block_time {
            return Err(ContractError::StartTimeInPast {});
        }
    }
    if modified.initial_asset.info.equal(&modified.target_asset) {
        return Err(ContractError::DuplicateAsset {});
    }
    if modified.dca_amount > modified.initial_asset.amount {
        return Err(ContractError::DepositTooSmall {});
    }
    if modified.dca_amount == 0 {
        return Err(ContractError::DivideByZero {});
    }
    if modified.initial_asset.amount % modified.dca_amount != 0 {
        return Err(ContractError::IndivisibleDeposit {});
    }
    let ghost s1 = *state;
    let ghost modified_v = modified;
    state.orders[idx] = modified;
    proof {
        assert(state.orders@ =~= s1.orders@.update(idx as int, modified_v));
        lemma_ids_update(s1.orders@, idx as int, modified_v);
    }
    let mut attrs: Vec<Attribute> = Vec::new();
    push_text_attr(&mut attrs, "action", "modify_dca_order");
    push_uint_attr(&mut attrs, "id", id as u128);
    Ok(Response { messages, attributes: attrs, event: None })
}

} // verus!
