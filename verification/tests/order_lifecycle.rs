use astroport_dca::add_bot_tip;
use astroport_dca::execute;
use astroport_dca::get_user_dca_orders;
use astroport_dca::instantiate;
use astroport_dca::Asset;
use astroport_dca::AssetInfo;
use astroport_dca::AttrValue;
use astroport_dca::Coin;
use astroport_dca::ContractError;
use astroport_dca::DcaInfo;
use astroport_dca::Env;
use astroport_dca::ExecuteMsg;
use astroport_dca::Externals;
use astroport_dca::AllowanceEntry;
use astroport_dca::InstantiateMsg;
use astroport_dca::MessageInfo;
use astroport_dca::OutMsg;
use astroport_dca::State;
use astroport_dca::SwapOperation;
use astroport_dca::TipAssetInfo;

fn native(d: &str) -> AssetInfo {
    AssetInfo::NativeToken { denom: d.to_string() }
}

fn token(t: &str) -> AssetInfo {
    AssetInfo::Token { contract_addr: t.to_string() }
}

fn native_amount(d: &str, amount: u128) -> Asset {
    Asset { info: native(d), amount }
}

fn coin(amount: u128, d: &str) -> Coin {
    Coin { denom: d.to_string(), amount }
}

fn mock_info(sender: &str, funds: Vec<Coin>) -> MessageInfo {
    MessageInfo { sender: sender.to_string(), funds }
}

fn no_ext() -> Externals {
    Externals { factory_owner: "factory_owner".to_string(), allowances: Vec::new() }
}

fn allowance(t: &str, owner: &str, amount: u128) -> AllowanceEntry {
    AllowanceEntry { token_addr: t.to_string(), owner: owner.to_string(), amount }
}

fn ext_with(allowances: Vec<AllowanceEntry>) -> Externals {
    Externals { factory_owner: "factory_owner".to_string(), allowances }
}

fn setup_test() -> State {
    let (state, _resp) = instantiate(InstantiateMsg {
        max_hops: 2,
        whitelisted_tokens: vec![native("uluna"), token("allowed1"), token("allowed2")],
        whitelisted_tip_tokens: vec![
            TipAssetInfo { info: native("uluna"), per_hop_fee: 1 },
            TipAssetInfo { info: token("ibc/usdc"), per_hop_fee: 2 },
        ],
        max_spread: 10_000_000_000_000_000,
        factory_addr: "factory".to_string(),
        router_addr: "router".to_string(),
    });
    state
}

fn setup_chain() -> State {
    let (state, _resp) = instantiate(InstantiateMsg {
        max_hops: 3,
        whitelisted_tokens: vec![native("uluna"), native("uusdc"), native("uusdt")],
        whitelisted_tip_tokens: vec![
            TipAssetInfo { info: native("uusdc"), per_hop_fee: 1_000_000 },
            TipAssetInfo { info: native("uusdt"), per_hop_fee: 1_000_000 },
        ],
        max_spread: 5_000_000_000_000_000,
        factory_addr: "factory".to_string(),
        router_addr: "router".to_string(),
    });
    state
}

fn create_msg(initial: Asset, target: AssetInfo, interval: u64, dca_amount: u128) -> ExecuteMsg {
    ExecuteMsg::CreateDcaOrder {
        initial_asset: initial,
        target_asset: target,
        interval,
        dca_amount,
        start_purchase: None,
        max_hops: None,
        max_spread: None,
    }
}

#[test]
fn create_dca_native() {
    let mut state = setup_test();
    let res = execute(
        &mut state,
        &Env { block_time: 10 },
        &mock_info("user", vec![coin(1000, "uluna")]),
        &no_ext(),
        ExecuteMsg::CreateDcaOrder {
            initial_asset: native_amount("uluna", 1000),
            target_asset: token("ibc/usdt"),
            interval: 60 * 60 * 24,
            dca_amount: 100,
            start_purchase: Some(1000),
            max_hops: Some(1),
            max_spread: None,
        },
    )
    .unwrap();
    assert_eq!(res.attributes[0].key, "action");
    assert_eq!(res.attributes[0].value, AttrValue::Text("create_dca_order".to_string()));
    assert_eq!(res.attributes[1].key, "id");
    assert_eq!(res.attributes[1].value, AttrValue::Uint(1));
    let orders = get_user_dca_orders(&state, &no_ext(), "user".to_string(), None, None);
    assert_eq!(orders.len(), 1);
    assert_eq!(
        orders[0].info,
        DcaInfo {
            id: 1,
            owner: "user".to_string(),
            initial_asset: native_amount("uluna", 1000),
            target_asset: token("ibc/usdt"),
            interval: 60 * 60 * 24,
            last_purchase: 0,
            dca_amount: 100,
            start_purchase: Some(1000),
            max_hops: Some(1),
            max_spread: None,
        }
    );
}

#[test]
fn create_dca_fails() {
    let mut state = setup_test();
    let ext = ext_with(vec![allowance("token", "user", 999)]);

    let err = execute(
        &mut state,
        &Env { block_time: 10 },
        &mock_info("user", vec![]),
        &ext,
        ExecuteMsg::CreateDcaOrder {
            initial_asset: Asset { info: token("token"), amount: 1000 },
            target_asset: token("ibc/usdt"),
            interval: 60 * 60 * 24,
            dca_amount: 100,
            start_purchase: Some(1000),
            max_hops: Some(1),
            max_spread: None,
        },
    )
    .unwrap_err();
    assert_eq!(err, ContractError::InvalidTokenDeposit {});

    let err = execute(
        &mut state,
        &Env { block_time: 10 },
        &mock_info("user", vec![]),
        &ext,
        ExecuteMsg::CreateDcaOrder {
            initial_asset: Asset { info: token("token"), amount: 999 },
            target_asset: token("ibc/usdt"),
            interval: 60 * 60 * 24,
            dca_amount: 100,
            start_purchase: Some(1000),
            max_hops: Some(1),
            max_spread: None,
        },
    )
    .unwrap_err();
    assert_eq!(err, ContractError::IndivisibleDeposit {});

    let err = execute(
        &mut state,
        &Env { block_time: 10 },
        &mock_info("user", vec![]),
        &ext,
        ExecuteMsg::CreateDcaOrder {
            initial_asset: Asset { info: token("token"), amount: 1001 },
            target_asset: token("ibc/usdt"),
            interval: 60 * 60 * 24,
            dca_amount: 10005,
            start_purchase: Some(1000),
            max_hops: Some(1),
            max_spread: None,
        },
    )
    .unwrap_err();
    assert_eq!(err, ContractError::DepositTooSmall {});

    let err = execute(
        &mut state,
        &Env { block_time: 10 },
        &mock_info("user", vec![]),
        &ext,
        ExecuteMsg::CreateDcaOrder {
            initial_asset: Asset { info: token("token"), amount: 1001 },
            target_asset: token("token"),
            interval: 60 * 60 * 24,
            dca_amount: 10005,
            start_purchase: Some(1000),
            max_hops: Some(1),
            max_spread: None,
        },
    )
    .unwrap_err();
    assert_eq!(err, ContractError::DuplicateAsset {});

    let err = execute(
        &mut state,
        &Env { block_time: 10 },
        &mock_info("user", vec![]),
        &ext,
        ExecuteMsg::CreateDcaOrder {
            initial_asset: Asset { info: token("token"), amount: 1001 },
            target_asset: token("token"),
            interval: 60 * 60 * 24,
            dca_amount: 10005,
            start_purchase: Some(1),
            max_hops: Some(1),
            max_spread: None,
        },
    )
    .unwrap_err();
    assert_eq!(err, ContractError::StartTimeInPast {});
}

#[test]
fn create_dca_token() {
    let mut state = setup_test();
    execute(
        &mut state,
        &Env { block_time: 10 },
        &mock_info("user", vec![]),
        &ext_with(vec![allowance("token", "user", 1000)]),
        ExecuteMsg::CreateDcaOrder {
            initial_asset: Asset { info: token("token"), amount: 1000 },
            target_asset: token("ibc/usdt"),
            interval: 60 * 60 * 24,
            dca_amount: 100,
            start_purchase: Some(1000),
            max_hops: Some(1),
            max_spread: None,
        },
    )
    .unwrap();

    let res = execute(
        &mut state,
        &Env { block_time: 10 },
        &mock_info("user2", vec![]),
        &ext_with(vec![allowance("token2", "user2", 100)]),
        ExecuteMsg::CreateDcaOrder {
            initial_asset: Asset { info: token("token2"), amount: 100 },
            target_asset: token("ibc/usdc"),
            interval: 60 * 60 * 24,
            dca_amount: 10,
            start_purchase: Some(1000),
            max_hops: None,
            max_spread: None,
        },
    )
    .unwrap();
    assert_eq!(res.attributes[1].key, "id");
    assert_eq!(res.attributes[1].value, AttrValue::Uint(2));
}

#[test]
fn cancel_dca_fails() {
    let mut state = setup_test();
    execute(
        &mut state,
        &Env { block_time: 10 },
        &mock_info("user", vec![coin(1000, "uluna")]),
        &no_ext(),
        ExecuteMsg::CreateDcaOrder {
            initial_asset: native_amount("uluna", 1000),
            target_asset: token("ibc/usdt"),
            interval: 60 * 60 * 24,
            dca_amount: 100,
            start_purchase: Some(1000),
            max_hops: Some(1),
            max_spread: None,
        },
    )
    .unwrap();

    let err = execute(
        &mut state,
        &Env { block_time: 10 },
        &mock_info("user2", vec![]),
        &no_ext(),
        ExecuteMsg::CancelDcaOrder { id: 1 },
    )
    .unwrap_err();
    assert_eq!(err, ContractError::Unauthorized {});

    let err = execute(
        &mut state,
        &Env { block_time: 10 },
        &mock_info("user", vec![]),
        &no_ext(),
        ExecuteMsg::CancelDcaOrder { id: 2 },
    )
    .unwrap_err();
    assert_eq!(err, ContractError::NonExistentDca {});
}

#[test]
fn cancel_dca() {
    let mut state = setup_test();
    execute(
        &mut state,
        &Env { block_time: 10 },
        &mock_info("user", vec![coin(1000, "uluna")]),
        &no_ext(),
        ExecuteMsg::CreateDcaOrder {
            initial_asset: native_amount("uluna", 1000),
            target_asset: token("ibc/usdt"),
            interval: 60 * 60 * 24,
            dca_amount: 100,
            start_purchase: Some(1000),
            max_hops: Some(1),
            max_spread: None,
        },
    )
    .unwrap();
    execute(
        &mut state,
        &Env { block_time: 10 },
        &mock_info("user2", vec![]),
        &ext_with(vec![allowance("token", "user2", 1000)]),
        ExecuteMsg::CreateDcaOrder {
            initial_asset: Asset { info: token("token"), amount: 1000 },
            target_asset: token("ibc/usdt"),
            interval: 60 * 60 * 24,
            dca_amount: 100,
            start_purchase: Some(1000),
            max_hops: Some(1),
            max_spread: None,
        },
    )
    .unwrap();

    let cancel = execute(
        &mut state,
        &Env { block_time: 10 },
        &mock_info("user", vec![]),
        &no_ext(),
        ExecuteMsg::CancelDcaOrder { id: 1 },
    )
    .unwrap();
    assert_eq!(cancel.attributes[0].value, AttrValue::Text("cancel_dca_order".to_string()));
    assert_eq!(cancel.attributes[1].value, AttrValue::Uint(1));
    assert_eq!(cancel.messages.len(), 1);
    assert_eq!(
        cancel.messages[0],
        OutMsg::BankSend {
            to_address: "user".to_string(),
            denom: "uluna".to_string(),
            amount: 1000,
        }
    );

    let cancel = execute(
        &mut state,
        &Env { block_time: 10 },
        &mock_info("user2", vec![]),
        &no_ext(),
        ExecuteMsg::CancelDcaOrder { id: 2 },
    )
    .unwrap();
    assert_eq!(cancel.messages.len(), 0);
    assert_eq!(astroport_dca::get_dca_orders(&state, None, None).len(), 0);
}

#[test]
fn cancel_dca_after_execute_cw20() {
    let mut state = setup_test();
    execute(
        &mut state,
        &Env { block_time: 10 },
        &mock_info("alice", vec![]),
        &ext_with(vec![allowance("token-a", "alice", 2)]),
        ExecuteMsg::CreateDcaOrder {
            initial_asset: Asset { info: token("token-a"), amount: 2 },
            target_asset: token("astro"),
            interval: 12 * 60 * 60,
            dca_amount: 1,
            start_purchase: None,
            max_hops: None,
            max_spread: Some(100_000_000_000_000_000),
        },
    )
    .unwrap();
    add_bot_tip(&mut state, &"alice".to_string(), native_amount("uluna", 1)).unwrap();
    execute(
        &mut state,
        &Env { block_time: 10 },
        &mock_info("anyone", vec![]),
        &no_ext(),
        ExecuteMsg::PerformDcaPurchase {
            id: 1,
            hops: vec![SwapOperation::AstroSwap {
                offer_asset_info: token("token-a"),
                ask_asset_info: token("astro"),
            }],
        },
    )
    .unwrap();

    // a token deposit is drawn from the allowance, so nothing is refunded
    let cancel = execute(
        &mut state,
        &Env { block_time: 10 },
        &mock_info("alice", vec![]),
        &no_ext(),
        ExecuteMsg::CancelDcaOrder { id: 1 },
    )
    .unwrap();
    assert_eq!(cancel.attributes[1].value, AttrValue::Uint(1));
    assert_eq!(cancel.messages.len(), 0);
}

#[test]
fn cancel_dca_after_execute_native() {
    let mut state = setup_test();
    execute(
        &mut state,
        &Env { block_time: 10 },
        &mock_info("alice", vec![coin(20, "uluna")]),
        &no_ext(),
        ExecuteMsg::CreateDcaOrder {
            initial_asset: native_amount("uluna", 20),
            target_asset: token("astro"),
            interval: 12 * 60 * 60,
            dca_amount: 5,
            start_purchase: None,
            max_hops: None,
            max_spread: Some(100_000_000_000_000_000),
        },
    )
    .unwrap();
    add_bot_tip(&mut state, &"alice".to_string(), native_amount("uluna", 1)).unwrap();
    execute(
        &mut state,
        &Env { block_time: 10 },
        &mock_info("anyone", vec![]),
        &no_ext(),
        ExecuteMsg::PerformDcaPurchase {
            id: 1,
            hops: vec![SwapOperation::AstroSwap {
                offer_asset_info: native("uluna"),
                ask_asset_info: token("astro"),
            }],
        },
    )
    .unwrap();

    let cancel = execute(
        &mut state,
        &Env { block_time: 10 },
        &mock_info("alice", vec![]),
        &no_ext(),
        ExecuteMsg::CancelDcaOrder { id: 1 },
    )
    .unwrap();
    assert_eq!(cancel.messages.len(), 1);
    assert_eq!(
        cancel.messages[0],
        OutMsg::BankSend { to_address: "alice".to_string(), denom: "uluna".to_string(), amount: 15 }
    );
}

#[test]
fn create_order_not_duplicate() {
    let mut state = setup_chain();
    let err = execute(
        &mut state,
        &Env { block_time: 1 },
        &mock_info("userone", vec![coin(50_000_000, "uusdc")]),
        &no_ext(),
        create_msg(native_amount("uusdc", 50_000_000), native("uusdc"), 600, 10_000_000),
    )
    .unwrap_err();
    assert_eq!(err, ContractError::DuplicateAsset {});
}

#[test]
fn create_order_dca_divisible() {
    let mut state = setup_chain();
    let err = execute(
        &mut state,
        &Env { block_time: 1 },
        &mock_info("userone", vec![coin(50_000_000, "uusdc")]),
        &no_ext(),
        create_msg(native_amount("uusdc", 50_000_000), native("uusdt"), 600, 15_000_000),
    )
    .unwrap_err();
    assert_eq!(err, ContractError::IndivisibleDeposit {});
}

#[test]
fn create_order_not_too_small() {
    let mut state = setup_chain();
    let err = execute(
        &mut state,
        &Env { block_time: 1 },
        &mock_info("userone", vec![coin(50_000_000, "uusdc")]),
        &no_ext(),
        create_msg(native_amount("uusdc", 50_000_000), native("uusdt"), 600, 60_000_000),
    )
    .unwrap_err();
    assert_eq!(err, ContractError::DepositTooSmall {});
}

#[test]
fn create_order() {
    let mut state = setup_chain();
    execute(
        &mut state,
        &Env { block_time: 1 },
        &mock_info("userone", vec![coin(50_000_000, "uusdc")]),
        &no_ext(),
        create_msg(native_amount("uusdc", 50_000_000), native("uluna"), 600, 10_000_000),
    )
    .unwrap();
    let infos = get_user_dca_orders(&state, &no_ext(), "userone".to_string(), None, None);
    assert_eq!(infos.len(), 1);
    let order = &infos[0].info;
    assert_eq!(order.id, 1);
    assert_eq!(order.owner, "userone");
    assert_eq!(order.initial_asset, native_amount("uusdc", 50_000_000));
    assert_eq!(order.target_asset, native("uluna"));
    assert_eq!(order.interval, 600);
    assert_eq!(order.last_purchase, 0);
    assert_eq!(order.dca_amount, 10_000_000);
    assert_eq!(infos[0].token_allowance, 50_000_000);
}

#[test]
fn create_multiple_orders_same_asset() {
    let mut state = setup_chain();
    execute(
        &mut state,
        &Env { block_time: 1 },
        &mock_info("userone", vec![coin(50_000_000, "uusdc")]),
        &no_ext(),
        create_msg(native_amount("uusdc", 50_000_000), native("uluna"), 600, 10_000_000),
    )
    .unwrap();
    execute(
        &mut state,
        &Env { block_time: 1 },
        &mock_info("userone", vec![coin(50_000_000, "uusdc")]),
        &no_ext(),
        create_msg(native_amount("uusdc", 50_000_000), native("uusdt"), 600, 10_000_000),
    )
    .unwrap();
    let infos = get_user_dca_orders(&state, &no_ext(), "userone".to_string(), None, None);
    assert_eq!(infos.len(), 2);
    assert_eq!(infos[0].info.id, 1);
    assert_eq!(infos[0].info.initial_asset, native_amount("uusdc", 50_000_000));
    assert_eq!(infos[1].info.id, 2);
    assert_eq!(infos[1].info.initial_asset, native_amount("uusdc", 50_000_000));
}

#[test]
fn create_multiple_orders_diff_asset() {
    let mut state = setup_chain();
    execute(
        &mut state,
        &Env { block_time: 1 },
        &mock_info("userone", vec![coin(50_000_000, "uusdc")]),
        &no_ext(),
        create_msg(native_amount("uusdc", 50_000_000), native("uluna"), 600, 10_000_000),
    )
    .unwrap();
    execute(
        &mut state,
        &Env { block_time: 1 },
        &mock_info("userone", vec![coin(50_000_000, "uusdt")]),
        &no_ext(),
        create_msg(native_amount("uusdt", 50_000_000), native("uluna"), 600, 10_000_000),
    )
    .unwrap();
    let infos = get_user_dca_orders(&state, &no_ext(), "userone".to_string(), None, None);
    assert_eq!(infos.len(), 2);
    assert_eq!(infos[0].info.id, 1);
    assert_eq!(infos[0].info.initial_asset, native_amount("uusdc", 50_000_000));
    assert_eq!(infos[1].info.id, 2);
    assert_eq!(infos[1].info.initial_asset, native_amount("uusdt", 50_000_000));
}

#[test]
fn modify_order_authorization_and_refund() {
    let mut state = setup_test();
    execute(
        &mut state,
        &Env { block_time: 10 },
        &mock_info("user", vec![coin(1000, "uluna")]),
        &no_ext(),
        ExecuteMsg::CreateDcaOrder {
            initial_asset: native_amount("uluna", 1000),
            target_asset: token("ibc/usdt"),
            interval: 60 * 60 * 24,
            dca_amount: 100,
            start_purchase: None,
            max_hops: None,
            max_spread: None,
        },
    )
    .unwrap();

    // someone else may not modify
    let err = execute(
        &mut state,
        &Env { block_time: 10 },
        &mock_info("mallory", vec![]),
        &no_ext(),
        ExecuteMsg::ModifyDcaOrder {
            id: 1,
            new_initial_asset: None,
            new_target_asset: None,
            new_interval: Some(60),
            new_dca_amount: None,
            should_reset_purchase_time: false,
            start_purchase: None,
            max_hops: None,
            max_spread: None,
        },
    )
    .unwrap_err();
    assert_eq!(err, ContractError::Unauthorized {});

    // shrinking a native deposit refunds the difference
    let res = execute(
        &mut state,
        &Env { block_time: 10 },
        &mock_info("user", vec![]),
        &no_ext(),
        ExecuteMsg::ModifyDcaOrder {
            id: 1,
            new_initial_asset: Some(native_amount("uluna", 600)),
            new_target_asset: None,
            new_interval: None,
            new_dca_amount: None,
            should_reset_purchase_time: false,
            start_purchase: None,
            max_hops: None,
            max_spread: None,
        },
    )
    .unwrap();
    assert_eq!(
        res.messages,
        vec![OutMsg::BankSend {
            to_address: "user".to_string(),
            denom: "uluna".to_string(),
            amount: 400,
        }]
    );
    let infos = get_user_dca_orders(&state, &no_ext(), "user".to_string(), None, None);
    assert_eq!(infos[0].info.initial_asset, native_amount("uluna", 600));
    assert_eq!(infos[0].info.dca_amount, 100);

    // a modification that breaks divisibility is refused whole
    let err = execute(
        &mut state,
        &Env { block_time: 10 },
        &mock_info("user", vec![]),
        &no_ext(),
        ExecuteMsg::ModifyDcaOrder {
            id: 1,
            new_initial_asset: None,
            new_target_asset: None,
            new_interval: None,
            new_dca_amount: Some(70),
            should_reset_purchase_time: false,
            start_purchase: None,
            max_hops: None,
            max_spread: None,
        },
    )
    .unwrap_err();
    assert_eq!(err, ContractError::IndivisibleDeposit {});
    let infos = get_user_dca_orders(&state, &no_ext(), "user".to_string(), None, None);
    assert_eq!(infos[0].info.dca_amount, 100);
}

#[test]
fn create_requires_exact_native_funding() {
    let mut state = setup_chain();
    let err = execute(
        &mut state,
        &Env { block_time: 1 },
        &mock_info("userone", vec![coin(40_000_000, "uusdc")]),
        &no_ext(),
        create_msg(native_amount("uusdc", 50_000_000), native("uluna"), 600, 10_000_000),
    )
    .unwrap_err();
    assert_eq!(err, ContractError::InvalidNativeTokenDeposit {});
    assert_eq!(astroport_dca::get_dca_orders(&state, None, None).len(), 0);
}

#[test]
fn create_refuses_zero_dca_amount() {
    let mut state = setup_chain();
    let err = execute(
        &mut state,
        &Env { block_time: 1 },
        &mock_info("userone", vec![coin(50_000_000, "uusdc")]),
        &no_ext(),
        create_msg(native_amount("uusdc", 50_000_000), native("uluna"), 600, 0),
    )
    .unwrap_err();
    assert_eq!(err, ContractError::DivideByZero {});
}
