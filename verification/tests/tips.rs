use astroport_dca::add_bot_tip;
use astroport_dca::add_tips;
use astroport_dca::execute;
use astroport_dca::get_user_config;
use astroport_dca::get_user_tips;
use astroport_dca::instantiate;
use astroport_dca::receive;
use astroport_dca::withdraw;
use astroport_dca::Asset;
use astroport_dca::AssetInfo;
use astroport_dca::AttrValue;
use astroport_dca::Coin;
use astroport_dca::ContractError;
use astroport_dca::Cw20HookMsg;
use astroport_dca::Env;
use astroport_dca::ExecuteMsg;
use astroport_dca::Externals;
use astroport_dca::InstantiateMsg;
use astroport_dca::MessageInfo;
use astroport_dca::OutMsg;
use astroport_dca::State;
use astroport_dca::TipAssetInfo;
use astroport_dca::UserConfig;

fn native(d: &str) -> AssetInfo {
    AssetInfo::NativeToken { denom: d.to_string() }
}

fn token(t: &str) -> AssetInfo {
    AssetInfo::Token { contract_addr: t.to_string() }
}

fn native_amount(d: &str, amount: u128) -> Asset {
    Asset { info: native(d), amount }
}

fn token_amount(t: &str, amount: u128) -> Asset {
    Asset { info: token(t), amount }
}

fn coin(amount: u128, d: &str) -> Coin {
    Coin { denom: d.to_string(), amount }
}

fn mock_info(sender: &str, funds: Vec<Coin>) -> MessageInfo {
    MessageInfo { sender: sender.to_string(), funds }
}

fn no_ext() -> Externals {
    Externals { factory_owner: "factory_owner".to_string(), allowances: Vec::new() }
}

/// The tip-whitelist of the handler tests: uluna at one per hop, the
/// ibc/usdc token at two per hop.
fn setup_test() -> State {
    let (state, _resp) = instantiate(InstantiateMsg {
        max_hops: 2,
        whitelisted_tokens: vec![native("uluna"), token("allowed1"), token("allowed2")],
        whitelisted_tip_tokens: vec![
            TipAssetInfo { info: native("uluna"), per_hop_fee: 1 },
            TipAssetInfo { info: token("ibc/usdc"), per_hop_fee: 2 },
        ],
        max_spread: 10_000_000_000_000_000,
        factory_addr: "factory".to_string(),
        router_addr: "router".to_string(),
    });
    state
}

/// The tip-whitelist of the chain tests: usdc and usdt coins at a fee of
/// one million per hop.
fn setup_chain() -> State {
    let (state, _resp) = instantiate(InstantiateMsg {
        max_hops: 3,
        whitelisted_tokens: vec![native("uluna"), native("uusdc"), native("uusdt")],
        whitelisted_tip_tokens: vec![
            TipAssetInfo { info: native("uusdc"), per_hop_fee: 1_000_000 },
            TipAssetInfo { info: native("uusdt"), per_hop_fee: 1_000_000 },
        ],
        max_spread: 5_000_000_000_000_000,
        factory_addr: "factory".to_string(),
        router_addr: "router".to_string(),
    });
    state
}

#[test]
fn does_add_bot_tip_native() {
    let mut state = setup_test();
    let res = execute(
        &mut state,
        &Env { block_time: 10000 },
        &mock_info("creator", vec![coin(10000, "uluna")]),
        &no_ext(),
        ExecuteMsg::AddBotTip { asset: native_amount("uluna", 10000) },
    )
    .unwrap();
    assert_eq!(res.attributes.len(), 2);
    assert_eq!(res.attributes[0].key, "action");
    assert_eq!(res.attributes[0].value, AttrValue::Text("add_bot_tip".to_string()));
    assert_eq!(res.attributes[1].key, "tip_amount");
    assert_eq!(res.attributes[1].value, AttrValue::Uint(10000));
    let jars = get_user_tips(&state, "creator".to_string());
    assert_eq!(jars, vec![native_amount("uluna", 10000)]);
}

#[test]
fn does_add_bot_tip_cw20() {
    let (mut state2, _r) = instantiate(InstantiateMsg {
        max_hops: 2,
        whitelisted_tokens: vec![native("uluna")],
        whitelisted_tip_tokens: vec![TipAssetInfo { info: token("token"), per_hop_fee: 100 }],
        max_spread: 10_000_000_000_000_000,
        factory_addr: "factory".to_string(),
        router_addr: "router".to_string(),
    });

    // a native tip outside that whitelist is refused
    let res = execute(
        &mut state2,
        &Env { block_time: 10000 },
        &mock_info("creator", vec![coin(10000, "uluna")]),
        &no_ext(),
        ExecuteMsg::AddBotTip { asset: native_amount("uluna", 10000) },
    )
    .unwrap_err();
    assert_eq!(res, ContractError::InvalidTipAssetInfo {});

    // a token outside that whitelist is refused through the hook
    let res = receive(
        &mut state2,
        &mock_info("unknown", vec![]),
        &"creator".to_string(),
        10000,
        Cw20HookMsg::AddBotTips {},
    )
    .unwrap_err();
    assert_eq!(res, ContractError::InvalidTipAssetInfo {});

    // the whitelisted token is credited through the hook
    receive(
        &mut state2,
        &mock_info("token", vec![]),
        &"creator".to_string(),
        10000,
        Cw20HookMsg::AddBotTips {},
    )
    .unwrap();
    let jars = get_user_tips(&state2, "creator".to_string());
    assert_eq!(jars, vec![token_amount("token", 10000)]);
}

#[test]
fn does_require_whitelisted() {
    let mut state = setup_test();
    let res = execute(
        &mut state,
        &Env { block_time: 10000 },
        &mock_info("creator", vec![]),
        &no_ext(),
        ExecuteMsg::AddBotTip { asset: native_amount("uluna", 0) },
    )
    .unwrap_err();
    assert_eq!(res, ContractError::InvalidZeroAmount {});
}

#[test]
fn empty_tips_balance() {
    let state = setup_chain();
    let config = get_user_config(&state, "userone".to_string());
    assert_eq!(config, UserConfig { max_hops: None, max_spread: None });
    assert_eq!(get_user_tips(&state, "userone".to_string()), vec![]);
}

#[test]
fn add_tips_not_empty() {
    let mut state = setup_chain();
    let err = add_tips(&mut state, &mock_info("userone", vec![])).unwrap_err();
    assert_eq!(err, ContractError::InvalidZeroAmount {});
}

#[test]
fn only_add_tips_denom() {
    let mut state = setup_chain();
    let err = add_tips(&mut state, &mock_info("userone", vec![coin(1_000, "uosmo")])).unwrap_err();
    assert_eq!(err, ContractError::InvalidTipAssetInfo {});
}

#[test]
fn add_tips_works() {
    let mut state = setup_chain();
    add_tips(&mut state, &mock_info("userone", vec![coin(1_000, "uusdt")])).unwrap();
    assert_eq!(get_user_tips(&state, "userone".to_string()), vec![native_amount("uusdt", 1_000)]);
}

#[test]
fn withdraw_tips_works() {
    let mut state = setup_chain();
    add_tips(&mut state, &mock_info("userone", vec![coin(1_000, "uusdt"), coin(1_000, "uusdc")]))
        .unwrap();

    // withdraw everything
    let res = withdraw(&mut state, &mock_info("userone", vec![]), None).unwrap();
    assert_eq!(
        res.messages,
        vec![
            OutMsg::BankSend {
                to_address: "userone".to_string(),
                denom: "uusdt".to_string(),
                amount: 1_000,
            },
            OutMsg::BankSend {
                to_address: "userone".to_string(),
                denom: "uusdc".to_string(),
                amount: 1_000,
            },
        ]
    );
    assert_eq!(get_user_tips(&state, "userone".to_string()), vec![]);

    // refill, then withdraw named amounts
    add_tips(&mut state, &mock_info("userone", vec![coin(1_000, "uusdt"), coin(1_000, "uusdc")]))
        .unwrap();
    let res = withdraw(
        &mut state,
        &mock_info("userone", vec![]),
        Some(vec![native_amount("uusdt", 500), native_amount("uusdc", 1_000)]),
    )
    .unwrap();
    assert_eq!(
        res.messages,
        vec![
            OutMsg::BankSend {
                to_address: "userone".to_string(),
                denom: "uusdt".to_string(),
                amount: 500,
            },
            OutMsg::BankSend {
                to_address: "userone".to_string(),
                denom: "uusdc".to_string(),
                amount: 1_000,
            },
        ]
    );
    assert_eq!(get_user_tips(&state, "userone".to_string()), vec![native_amount("uusdt", 500)]);
}

#[test]
fn withdraw_tips_insuff_bal() {
    let mut state = setup_chain();
    add_tips(&mut state, &mock_info("userone", vec![coin(1_000, "uusdt")])).unwrap();
    let err = withdraw(
        &mut state,
        &mock_info("userone", vec![]),
        Some(vec![native_amount("uusdt", 2_000)]),
    )
    .unwrap_err();
    assert_eq!(err, ContractError::InsufficientTipBalance {});
    assert_eq!(get_user_tips(&state, "userone".to_string()), vec![native_amount("uusdt", 1_000)]);
}

#[test]
fn withdraw_tips_fails() {
    let mut state = setup_test();
    let err = withdraw(
        &mut state,
        &mock_info("alice", vec![]),
        Some(vec![native_amount("uluna", 1000)]),
    )
    .unwrap_err();
    assert_eq!(err, ContractError::NonExistentTipJar { token: "*".to_string() });

    add_bot_tip(&mut state, &"alice".to_string(), native_amount("uluna", 10)).unwrap();
    add_bot_tip(&mut state, &"alice".to_string(), native_amount("uluna", 10)).unwrap();
    receive(
        &mut state,
        &mock_info("ibc/usdc", vec![]),
        &"alice".to_string(),
        4,
        Cw20HookMsg::AddBotTips {},
    )
    .unwrap();

    let err = withdraw(
        &mut state,
        &mock_info("alice", vec![]),
        Some(vec![token_amount("token", 1000)]),
    )
    .unwrap_err();
    assert_eq!(err, ContractError::NonExistentTipJar { token: "token".to_string() });

    let err = withdraw(
        &mut state,
        &mock_info("alice", vec![]),
        Some(vec![native_amount("uluna", 1000)]),
    )
    .unwrap_err();
    assert_eq!(err, ContractError::InsufficientTipBalance {});
}

#[test]
fn withdraw_tips() {
    let mut state = setup_test();
    add_bot_tip(&mut state, &"alice".to_string(), native_amount("uluna", 10)).unwrap();
    add_bot_tip(&mut state, &"alice".to_string(), native_amount("uluna", 10)).unwrap();
    receive(
        &mut state,
        &mock_info("ibc/usdc", vec![]),
        &"alice".to_string(),
        4,
        Cw20HookMsg::AddBotTips {},
    )
    .unwrap();

    let res = withdraw(
        &mut state,
        &mock_info("alice", vec![]),
        Some(vec![native_amount("uluna", 5)]),
    )
    .unwrap();
    assert_eq!(res.messages.len(), 1);
    assert_eq!(
        res.messages[0],
        OutMsg::BankSend { to_address: "alice".to_string(), denom: "uluna".to_string(), amount: 5 }
    );

    let res = withdraw(&mut state, &mock_info("alice", vec![]), None).unwrap();
    assert_eq!(res.messages.len(), 2);
    assert_eq!(
        res.messages[0],
        OutMsg::BankSend {
            to_address: "alice".to_string(),
            denom: "uluna".to_string(),
            amount: 15,
        }
    );
    assert_eq!(
        res.messages[1],
        OutMsg::Cw20Transfer {
            token_addr: "ibc/usdc".to_string(),
            recipient: "alice".to_string(),
            amount: 4,
        }
    );
    assert_eq!(get_user_tips(&state, "alice".to_string()), vec![]);
}

#[test]
fn tip_overflow_is_refused() {
    let mut state = setup_test();
    add_bot_tip(&mut state, &"alice".to_string(), native_amount("uluna", u128::MAX)).unwrap();
    let err =
        add_bot_tip(&mut state, &"alice".to_string(), native_amount("uluna", 1)).unwrap_err();
    assert_eq!(err, ContractError::Overflow {});
    assert_eq!(
        get_user_tips(&state, "alice".to_string()),
        vec![native_amount("uluna", u128::MAX)]
    );
}
