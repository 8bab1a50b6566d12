//! Creating an order.  The deposit must differ from the target, cover the
//! per-purchase amount, divide by it exactly, and actually be funded: a
//! native deposit by the attached coins, a token deposit by the allowance
//! the sender granted the contract.  The new order takes the next id from
//! the monotonic counter; the first purchase is allowed at once unless a
//! future start time was given.

use vstd::prelude::*;

use crate::asset::Asset;
use crate::asset::AssetInfo;
use crate::asset::Coin;
use crate::dca::DcaInfo;
use crate::error::err_is;
use crate::error::ContractError;
use crate::msg::sent_amount;
use crate::msg::spec_allowance;
use crate::msg::spec_sent_amount;
use crate::msg::Env;
use crate::msg::Externals;
use crate::msg::MessageInfo;
use crate::response::is_text_attr;
use crate::response::is_uint_attr;
use crate::response::push_text_attr;
use crate::response::push_uint_attr;
use crate::response::Attribute;
use crate::response::Response;
use crate::state::State;

verus! {

/// A requested first-purchase time lies before the current block time.
pub open spec fn spec_start_in_past(start_purchase: Option<u64>, now: u64) -> bool {
    start_purchase matches Some(s) && s < now
}

/// The deposit is funded: a native deposit by attached coins of exactly its
/// amount, a token deposit by an allowance of at least its amount.
pub open spec fn spec_deposit_funded(
    initial: Asset,
    funds: Seq<Coin>,
    allowances: Seq<crate::msg::AllowanceEntry>,
    sender: Seq<char>,
) -> bool {
    match initial.info {
        AssetInfo::NativeToken { denom } => spec_sent_amount(funds, denom@) == initial.amount,
        AssetInfo::Token { contract_addr } => spec_allowance(allowances, contract_addr@, sender)
            >= initial.amount,
    }
}

/// Creation is accepted: every validation passes and a fresh id exists.
pub open spec fn spec_create_accepted(
    s: State,
    now: u64,
    info: MessageInfo,
    ext: Externals,
    initial_asset: Asset,
    target_asset: AssetInfo,
    dca_amount: u128,
    start_purchase: Option<u64>,
) -> bool {
    &&& !spec_start_in_past(start_purchase, now)
    &&& !initial_asset.info.matches(target_asset)
    &&& 0 < dca_amount <= initial_asset.amount
    &&& initial_asset.amount as int % dca_amount as int == 0
    &&& spec_deposit_funded(initial_asset, info.funds@, ext.allowances@, info.sender@)
    &&& s.dca_id < u64::MAX
}

/// The order a successful creation stores.
pub open spec fn spec_created_order(
    s: State,
    sender: String,
    initial_asset: Asset,
    target_asset: AssetInfo,
    interval: u64,
    dca_amount: u128,
    start_purchase: Option<u64>,
    max_hops: Option<u32>,
    max_spread: Option<u128>,
) -> DcaInfo {
    DcaInfo {
        id: (s.dca_id + 1) as u64,
        owner: sender,
        initial_asset,
        target_asset,
        interval,
        last_purchase: 0,
        dca_amount,
        start_purchase,
        max_hops,
        max_spread,
    }
}

/// Creates a new order for the sender.
///
/// On success the store grows by exactly the new order, under the next id
/// from the counter, with `last_purchase` at the never-executed sentinel;
/// nothing else changes and no message goes out.  On failure nothing
/// changes, and the error names the first validation that did not hold.
#[allow(clippy::too_many_arguments)]
pub fn create_dca_order(
    state: &mut State,
    env: &Env,
    info: &MessageInfo,
    ext: &Externals,
    initial_asset: Asset,
    target_asset: AssetInfo,
    interval: u64,
    dca_amount: u128,
    start_purchase: Option<u64>,
    max_hops: Option<u32>,
    max_spread: Option<u128>,
) -> (r: Result<Response, ContractError>)
    requires
        old(state).wf(),
    ensures
        final(state).wf(),
        r is Err ==> *final(state) == *old(state),
        r is Ok <==> spec_create_accepted(
            *old(state),
            env.block_time,
            *info,
            *ext,
            initial_asset,
            target_asset,
            dca_amount,
            start_purchase,
        ),
        spec_start_in_past(start_purchase, env.block_time) ==> err_is(
            r,
            ContractError::StartTimeInPast {},
        ),
        !spec_start_in_past(start_purchase, env.block_time) && initial_asset.info.matches(
            target_asset,
        ) ==> err_is(r, ContractError::DuplicateAsset {}),
        !spec_start_in_past(start_purchase, env.block_time) && !initial_asset.info.matches(
            target_asset,
        ) && dca_amount > initial_asset.amount ==> err_is(r, ContractError::DepositTooSmall {}),
        !spec_start_in_past(start_purchase, env.block_time) && !initial_asset.info.matches(
            target_asset,
        ) && dca_amount == 0 ==> err_is(r, ContractError::DivideByZero {}),
        !spec_start_in_past(start_purchase, env.block_time) && !initial_asset.info.matches(
            target_asset,
        ) && 0 < dca_amount <= initial_asset.amount && initial_asset.amount as int
            % dca_amount as int != 0 ==> err_is(r, ContractError::IndivisibleDeposit {}),
        !spec_start_in_past(start_purchase, env.block_time) && !initial_asset.info.matches(
            target_asset,
        ) && 0 < dca_amount <= initial_asset.amount && initial_asset.amount as int
            % dca_amount as int == 0 && !spec_deposit_funded(
            initial_asset,
            info.funds@,
            ext.allowances@,
            info.sender@,
        ) ==> err_is(
            r,
            if initial_asset.info.spec_is_native() {
                ContractError::InvalidNativeTokenDeposit {}
            } else {
                ContractError::InvalidTokenDeposit {}
            },
        ),
        r is Ok ==> final(state).orders@ == old(state).orders@.push(
            spec_created_order(
                *old(state),
                info.sender,
                initial_asset,
                target_asset,
                interval,
                dca_amount,
                start_purchase,
                max_hops,
                max_spread,
            ),
        ) && final(state).dca_id == old(state).dca_id + 1,
        r is Err ==> final(state).dca_id == old(state).dca_id,
        final(state).config == old(state).config,
        final(state).tip_jars == old(state).tip_jars,
        final(state).user_configs == old(state).user_configs,
        r matches Ok(resp) ==> resp.messages@.len() == 0 && resp.event is None
            && resp.attributes@.len() == 2 && is_text_attr(
            resp.attributes@[0],
            "action"@,
            "create_dca_order"@,
        ) && is_uint_attr(resp.attributes@[1], "id"@, (old(state).dca_id + 1) as u128),
{
    if let Some(s) = start_purchase {
        if s < env.block_time {
            return Err(ContractError::StartTimeInPast {});
        }
    }
    if initial_asset.info.equal(&target_asset) {
        return Err(ContractError::DuplicateAsset {});
    }
    if dca_amount > initial_asset.amount {
        return Err(ContractError::DepositTooSmall {});
    }
    if dca_amount == 0 {
        return Err(ContractError::DivideByZero {});
    }
    if initial_asset.amount % dca_amount != 0 {
        return Err(ContractError::IndivisibleDeposit {});
    }
    match &initial_asset.info {
        AssetInfo::NativeToken { denom } => {
            if sent_amount(&info.funds, denom) != initial_asset.amount {
                return Err(ContractError::InvalidNativeTokenDeposit {});
            }
        },
        AssetInfo::Token { contract_addr } => {
            if ext.allowance_of(contract_addr, &info.sender) < initial_asset.amount {
                return Err(ContractError::InvalidTokenDeposit {});
            }
        },
    }
    if state.dca_id == u64::MAX {
        return Err(ContractError::Overflow {});
    }
    let ghost s1 = *state;
    let id = state.dca_id + 1;
    state.dca_id = id;
    let order = DcaInfo {
        id,
        owner: info.sender.clone(),
        initial_asset,
        target_asset,
        interval,
        last_purchase: 0,
        dca_amount,
        start_purchase,
        max_hops,
        max_spread,
    };
    state.orders.push(order);
    proof {
        assert forall|i: int, j: int|
            0 <= i < j < state.orders@.len() implies (#[trigger] state.orders@[i].id) < (
        #[trigger] state.orders@[j].id) by {
            if j < s1.orders@.len() {
                assert(s1.orders@[i].id < s1.orders@[j].id);
            } else {
                assert(s1.orders@[i].id <= s1.dca_id);
            }
        }
    }
    let mut attrs: Vec<Attribute> = Vec::new();
    push_text_attr(&mut attrs, "action", "create_dca_order");
    push_uint_attr(&mut attrs, "id", id as u128);
    Ok(Response { messages: Vec::new(), attributes: attrs, event: None })
}

} // verus!
