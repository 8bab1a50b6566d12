//! The contract's entry points: creating its state, dispatching the
//! mutating operations, answering the read-only queries, and migrating.
//! Every mutating call runs against the whole state and either commits all
//! of its changes or, on any error, none.

use vstd::prelude::*;

use crate::error::ContractError;
use crate::handlers::add_bot_tip;
use crate::handlers::add_tips;
use crate::handlers::cancel_dca_order;
use crate::handlers::create_dca_order;
use crate::handlers::modify_dca_order;
use crate::handlers::perform_dca_purchase;
use crate::handlers::receive;
use crate::handlers::update_config;
use crate::handlers::update_user_config;
use crate::handlers::withdraw;
use crate::msg::sent_amount;
use crate::msg::spec_native_deposit_ok;
use crate::msg::Env;
use crate::msg::ExecuteMsg;
use crate::msg::Externals;
use crate::msg::InstantiateMsg;
use crate::msg::MessageInfo;
use crate::msg::MigrateMsg;
use crate::msg::QueryMsg;
use crate::msg::QueryResponse;
use crate::queries::get_all_dca_orders;
use crate::queries::get_config;
use crate::queries::get_dca_order;
use crate::queries::get_dca_orders;
use crate::queries::get_tips;
use crate::queries::get_user_asset_dca_orders;
use crate::queries::get_user_config;
use crate::queries::get_user_dca_orders;
use crate::queries::get_user_tips;
use crate::response::Response;
use crate::state::Config;
use crate::state::State;

verus! {

/// Creates the contract state from the instantiation message: the given
/// configuration, an id counter at zero so the first order takes id one,
/// and empty order, tip and user-configuration stores.
pub fn instantiate(msg: InstantiateMsg) -> (r: (State, Response))
    ensures
        r.0.wf(),
        r.0.config.max_hops == msg.max_hops,
        r.0.config.max_spread == msg.max_spread,
        r.0.config.whitelisted_tokens == msg.whitelisted_tokens,
        r.0.config.whitelisted_tip_tokens == msg.whitelisted_tip_tokens,
        r.0.config.factory_addr == msg.factory_addr,
        r.0.config.router_addr == msg.router_addr,
        r.0.dca_id == 0,
        r.0.orders@ == Seq::<crate::dca::DcaInfo>::empty(),
        r.0.tip_jars@ == Seq::<crate::state::TipJar>::empty(),
        r.0.user_configs@ == Seq::<crate::state::UserConfigEntry>::empty(),
        r.1.messages@.len() == 0 && r.1.attributes@.len() == 0 && r.1.event is None,
{
    let state = State {
        config: Config {
            max_hops: msg.max_hops,
            max_spread: msg.max_spread,
            whitelisted_tokens: msg.whitelisted_tokens,
            whitelisted_tip_tokens: msg.whitelisted_tip_tokens,
            factory_addr: msg.factory_addr,
            router_addr: msg.router_addr,
        },
        dca_id: 0,
        orders: Vec::new(),
        tip_jars: Vec::new(),
        user_configs: Vec::new(),
    };
    (state, Response::new())
}

/// Migration does nothing and answers with an empty response.
pub fn migrate(_msg: &MigrateMsg) -> (r: Response)
    ensures
        r.messages@.len() == 0 && r.attributes@.len() == 0 && r.event is None,
{
    Response::new()
}

/// Dispatches one mutating operation.
///
/// Whatever the operation, a well-formed state stays well formed, and any
/// error leaves the state exactly as it was.  Each arm hands the call to
/// the operation's own function, whose contract pins the outcome down; the
/// one addition here is that a declared tip credit must be backed by the
/// attached coins before it is credited.
pub fn execute(
    state: &mut State,
    env: &Env,
    info: &MessageInfo,
    ext: &Externals,
    msg: ExecuteMsg,
) -> (r: Result<Response, ContractError>)
    requires
        old(state).wf(),
    ensures
        final(state).wf(),
        r is Err ==> *final(state) == *old(state),
        final(state).config.factory_addr == old(state).config.factory_addr,
        final(state).config.router_addr == old(state).config.router_addr,
        msg matches ExecuteMsg::AddBotTip { asset } ==> {
            &&& !spec_native_deposit_ok(info.funds@, asset) ==> r == Err::<
                Response,
                ContractError,
            >(ContractError::InvalidNativeTokenDeposit {})
            &&& (spec_native_deposit_ok(info.funds@, asset) && r is Ok) ==> forall|
                o: Seq<char>,
                info2: crate::asset::AssetInfo,
            |
                (#[trigger] final(state).tip_balance(o, info2)) == old(state).tip_balance(o, info2)
                    + if o == info.sender@ && asset.info.matches(info2) {
                    asset.amount as int
                } else {
                    0
                }
        },
        msg is CancelDcaOrder || msg is ModifyDcaOrder ==> forall|
            o: Seq<char>,
            info2: crate::asset::AssetInfo,
        |
            (#[trigger] final(state).tip_balance(o, info2)) == old(state).tip_balance(o, info2),
        msg is UpdateConfig || msg is UpdateUserConfig || msg is CancelDcaOrder || msg
            is ModifyDcaOrder || msg is CreateDcaOrder ==> final(state).tip_jars == old(
            state,
        ).tip_jars,
        msg is Receive || msg is AddBotTip || msg is AddTips || msg is Withdraw || msg
            is UpdateConfig || msg is UpdateUserConfig ==> final(state).orders == old(
            state,
        ).orders && final(state).dca_id == old(state).dca_id,
        msg matches ExecuteMsg::Receive { sender, amount, msg: hook } ==> (r is Ok
            <==> crate::handlers::spec_tip_accepted(
            *old(state),
            sender@,
            crate::asset::Asset {
                info: crate::asset::AssetInfo::Token { contract_addr: info.sender },
                amount,
            },
        )),
        msg matches ExecuteMsg::AddBotTip { asset } ==> (r is Ok <==> spec_native_deposit_ok(
            info.funds@,
            asset,
        ) && crate::handlers::spec_tip_accepted(*old(state), info.sender@, asset)),
        msg matches ExecuteMsg::AddTips {  } ==> (r is Ok <==> info.funds@.len() > 0
            && crate::handlers::spec_credit_walk(
            if crate::state::spec_has_jar(old(state).tip_jars@, info.sender@) {
                old(state).tip_jars@[crate::state::spec_jar_index(
                    old(state).tip_jars@,
                    info.sender@,
                )].tips@
            } else {
                Seq::<crate::asset::Asset>::empty()
            },
            info.funds@,
            old(state).config.whitelisted_tip_tokens@,
        ) is Ok),
        msg matches ExecuteMsg::Withdraw { assets } ==> (r is Ok
            <==> crate::state::spec_has_jar(old(state).tip_jars@, info.sender@) && (match assets {
            Some(reqs) => crate::handlers::spec_withdraw_walk(
                old(state).tip_jars@[crate::state::spec_jar_index(
                    old(state).tip_jars@,
                    info.sender@,
                )].tips@,
                reqs@,
            ) is Ok,
            None => true,
        })),
        msg matches ExecuteMsg::CreateDcaOrder {
            initial_asset,
            target_asset,
            interval,
            dca_amount,
            start_purchase,
            max_hops,
            max_spread,
        } ==> (r is Ok <==> crate::handlers::spec_create_accepted(
            *old(state),
            env.block_time,
            *info,
            *ext,
            initial_asset,
            target_asset,
            dca_amount,
            start_purchase,
        )),
        msg matches ExecuteMsg::ModifyDcaOrder {
            id,
            new_initial_asset,
            new_target_asset,
            new_interval,
            new_dca_amount,
            should_reset_purchase_time,
            start_purchase,
            max_hops,
            max_spread,
        } ==> (r is Ok <==> crate::state::spec_has_order(old(state).orders@, id) && ({
            let order = old(state).orders@[crate::state::spec_order_index(
                old(state).orders@,
                id,
            )];
            let modified = crate::handlers::spec_modified_order(
                order,
                new_initial_asset,
                new_target_asset,
                new_interval,
                new_dca_amount,
                should_reset_purchase_time,
                start_purchase,
                max_hops,
                max_spread,
            );
            &&& order.owner@ == info.sender@
            &&& crate::handlers::spec_modify_funded(
                order,
                new_initial_asset,
                info.funds@,
                ext.allowances@,
                info.sender@,
            )
            &&& !crate::handlers::spec_start_in_past(start_purchase, env.block_time)
            &&& !modified.initial_asset.info.matches(modified.target_asset)
            &&& 0 < modified.dca_amount <= modified.initial_asset.amount
            &&& modified.initial_asset.amount as int % modified.dca_amount as int == 0
        })),
        msg matches ExecuteMsg::CancelDcaOrder { id } ==> (r is Ok <==> crate::state::spec_has_order(
            old(state).orders@,
            id,
        ) && old(state).orders@[crate::state::spec_order_index(old(state).orders@, id)].owner@
            == info.sender@),
        msg matches ExecuteMsg::PerformDcaPurchase { id, hops } ==> (r is Ok
            <==> crate::handlers::spec_purchase_accepted(*old(state), env.block_time, id, hops@)),
        msg is UpdateConfig ==> (r is Ok <==> info.sender@ == ext.factory_owner@),
        msg is UpdateUserConfig ==> r is Ok,
{
    match msg {
        ExecuteMsg::Receive { sender, amount, msg: hook } => receive(
            state,
            info,
            &sender,
            amount,
            hook,
        ),
        ExecuteMsg::AddBotTip { asset } => {
            match &asset.info {
                crate::asset::AssetInfo::NativeToken { denom } => {
                    if sent_amount(&info.funds, denom) != asset.amount {
                        return Err(ContractError::InvalidNativeTokenDeposit {});
                    }
                },
                crate::asset::AssetInfo::Token { .. } => {},
            }
            add_bot_tip(state, &info.sender, asset)
        },
        ExecuteMsg::AddTips {} => add_tips(state, info),
        ExecuteMsg::Withdraw { assets } => withdraw(state, info, assets),
        ExecuteMsg::CreateDcaOrder {
            initial_asset,
            target_asset,
            interval,
            dca_amount,
            start_purchase,
            max_hops,
            max_spread,
        } => create_dca_order(
            state,
            env,
            info,
            ext,
            initial_asset,
            target_asset,
            interval,
            dca_amount,
            start_purchase,
            max_hops,
            max_spread,
        ),
        ExecuteMsg::ModifyDcaOrder {
            id,
            new_initial_asset,
            new_target_asset,
            new_interval,
            new_dca_amount,
            should_reset_purchase_time,
            start_purchase,
            max_hops,
            max_spread,
        } => modify_dca_order(
            state,
            env,
            info,
            ext,
            id,
            new_initial_asset,
            new_target_asset,
            new_interval,
            new_dca_amount,
            should_reset_purchase_time,
            start_purchase,
            max_hops,
            max_spread,
        ),
        ExecuteMsg::CancelDcaOrder { id } => cancel_dca_order(state, info, id),
        ExecuteMsg::PerformDcaPurchase { id, hops } => perform_dca_purchase(
            state,
            env,
            info,
            id,
            hops,
        ),
        ExecuteMsg::UpdateConfig { max_hops, whitelisted_tokens, whitelisted_tip_tokens, max_spread } => update_config(
            state,
            info,
            ext,
            max_hops,
            whitelisted_tokens,
            whitelisted_tip_tokens,
            max_spread,
        ),
        ExecuteMsg::UpdateUserConfig { max_hops, max_spread } => update_user_config(
            state,
            info,
            max_hops,
            max_spread,
        ),
    }
}

/// Answers one read-only query.  Queries never change the state; the only
/// failing one is the single-order lookup of an unknown id.
pub fn query(state: &State, ext: &Externals, msg: QueryMsg) -> (r: Result<
    QueryResponse,
    ContractError,
>)
    requires
        state.wf(),
    ensures
        msg is Config ==> r matches Ok(QueryResponse::Config(c)),
        msg is Tips ==> (r matches Ok(QueryResponse::Tips(t)) && t@
            == state.config.whitelisted_tip_tokens@),
        msg matches QueryMsg::DcaOrder { id } ==> (if crate::state::spec_has_order(
            state.orders@,
            id,
        ) {
            r == Ok::<QueryResponse, ContractError>(
                QueryResponse::Order(
                    state.orders@[crate::state::spec_order_index(state.orders@, id)],
                ),
            )
        } else {
            r == Err::<QueryResponse, ContractError>(ContractError::NonExistentDca {})
        }),
        msg is DcaOrders || msg is AllDcaOrders || msg is UserDcaOrders || msg
            is UserAssetDcaOrders || msg is UserTips || msg is UserConfig || msg is Config || msg
            is Tips ==> (msg is DcaOrder || r is Ok),
        msg matches QueryMsg::UserTips { user } ==> (r matches Ok(QueryResponse::UserTips(t))
            && t@ == (if crate::state::spec_has_jar(state.tip_jars@, user@) {
            state.tip_jars@[crate::state::spec_jar_index(state.tip_jars@, user@)].tips@
        } else {
            Seq::<crate::asset::Asset>::empty()
        })),
        msg matches QueryMsg::UserConfig { user } ==> r == Ok::<QueryResponse, ContractError>(
            QueryResponse::UserConfig(crate::state::spec_user_config(*state, user@)),
        ),
{
    match msg {
        QueryMsg::Config {} => Ok(QueryResponse::Config(get_config(state))),
        QueryMsg::Tips {} => Ok(QueryResponse::Tips(get_tips(state))),
        QueryMsg::DcaOrder { id } => match get_dca_order(state, id) {
            Ok(o) => Ok(QueryResponse::Order(o)),
            Err(e) => Err(e),
        },
        QueryMsg::DcaOrders { start_after, limit } => Ok(
            QueryResponse::Orders(get_dca_orders(state, start_after, limit)),
        ),
        QueryMsg::AllDcaOrders { start_after, limit, is_ascending } => Ok(
            QueryResponse::Orders(get_all_dca_orders(state, start_after, limit, is_ascending)),
        ),
        QueryMsg::UserDcaOrders { user, start_after, limit } => Ok(
            QueryResponse::UserOrders(get_user_dca_orders(state, ext, user, start_after, limit)),
        ),
        QueryMsg::UserAssetDcaOrders { user, asset, start_after, limit } => Ok(
            QueryResponse::UserOrders(
                get_user_asset_dca_orders(state, ext, user, asset, start_after, limit),
            ),
        ),
        QueryMsg::UserTips { user } => Ok(QueryResponse::UserTips(get_user_tips(state, user))),
        QueryMsg::UserConfig { user } => Ok(
            QueryResponse::UserConfig(get_user_config(state, user)),
        ),
    }
}

} // verus!
