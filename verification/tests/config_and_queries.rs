use astroport_dca::execute;
use astroport_dca::get_config;
use astroport_dca::get_dca_order;
use astroport_dca::get_dca_orders;
use astroport_dca::get_tips;
use astroport_dca::get_user_asset_dca_orders;
use astroport_dca::get_user_config;
use astroport_dca::get_user_dca_orders;
use astroport_dca::get_user_tips;
use astroport_dca::instantiate;
use astroport_dca::receive;
use astroport_dca::add_bot_tip;
use astroport_dca::AllowanceEntry;
use astroport_dca::Asset;
use astroport_dca::AssetInfo;
use astroport_dca::Coin;
use astroport_dca::ConfigResponse;
use astroport_dca::ContractError;
use astroport_dca::Cw20HookMsg;
use astroport_dca::DcaInfo;
use astroport_dca::Env;
use astroport_dca::ExecuteMsg;
use astroport_dca::Externals;
use astroport_dca::InstantiateMsg;
use astroport_dca::MessageInfo;
use astroport_dca::State;
use astroport_dca::TipAssetInfo;

fn native(d: &str) -> AssetInfo {
    AssetInfo::NativeToken { denom: d.to_string() }
}

fn token(t: &str) -> AssetInfo {
    AssetInfo::Token { contract_addr: t.to_string() }
}

fn native_amount(d: &str, amount: u128) -> Asset {
    Asset { info: native(d), amount }
}

fn coin(amount: u128, d: &str) -> Coin {
    Coin { denom: d.to_string(), amount }
}

fn mock_info(sender: &str, funds: Vec<Coin>) -> MessageInfo {
    MessageInfo { sender: sender.to_string(), funds }
}

fn no_ext() -> Externals {
    Externals { factory_owner: "factory_owner".to_string(), allowances: Vec::new() }
}

fn ext_with(allowances: Vec<AllowanceEntry>) -> Externals {
    Externals { factory_owner: "factory_owner".to_string(), allowances }
}

fn allowance(t: &str, owner: &str, amount: u128) -> AllowanceEntry {
    AllowanceEntry { token_addr: t.to_string(), owner: owner.to_string(), amount }
}

fn setup_test() -> State {
    let (state, _resp) = instantiate(InstantiateMsg {
        max_hops: 2,
        whitelisted_tokens: vec![native("uluna"), token("allowed1"), token("allowed2")],
        whitelisted_tip_tokens: vec![
            TipAssetInfo { info: native("uluna"), per_hop_fee: 1 },
            TipAssetInfo { info: token("ibc/usdc"), per_hop_fee: 2 },
        ],
        max_spread: 10_000_000_000_000_000,
        factory_addr: "factory".to_string(),
        router_addr: "router".to_string(),
    });
    state
}

#[test]
fn proper_instantiation() {
    let state = setup_test();
    let res = get_config(&state);
    assert_eq!(
        res,
        ConfigResponse {
            max_hops: 2,
            max_spread: 10_000_000_000_000_000,
            whitelisted_tokens: vec![native("uluna"), token("allowed1"), token("allowed2")],
            whitelisted_tip_tokens: vec![
                TipAssetInfo { info: native("uluna"), per_hop_fee: 1 },
                TipAssetInfo { info: token("ibc/usdc"), per_hop_fee: 2 },
            ],
            factory_addr: "factory".to_string(),
            router_addr: "router".to_string(),
        }
    );
    assert_eq!(state.dca_id, 0);
}

#[test]
fn proper_instantiate() {
    let (state, resp) = instantiate(InstantiateMsg {
        max_hops: 3,
        whitelisted_tokens: vec![native("uluna"), native("uusdc"), native("uusdt")],
        whitelisted_tip_tokens: vec![
            TipAssetInfo { info: native("uusdc"), per_hop_fee: 1_000_000 },
            TipAssetInfo { info: native("uusdt"), per_hop_fee: 1_000_000 },
        ],
        max_spread: 5_000_000_000_000_000,
        factory_addr: "factory".to_string(),
        router_addr: "router".to_string(),
    });
    assert_eq!(resp.messages.len(), 0);
    let config = get_config(&state);
    assert_eq!(config.max_hops, 3);
    assert_eq!(config.max_spread, 5_000_000_000_000_000);
    assert_eq!(
        config.whitelisted_tokens,
        vec![native("uluna"), native("uusdc"), native("uusdt")]
    );
    assert_eq!(
        get_tips(&state),
        vec![
            TipAssetInfo { info: native("uusdc"), per_hop_fee: 1_000_000 },
            TipAssetInfo { info: native("uusdt"), per_hop_fee: 1_000_000 },
        ]
    );
}

#[test]
fn update_config_fails() {
    let mut state = setup_test();
    let err = execute(
        &mut state,
        &Env { block_time: 10 },
        &mock_info("alice", vec![]),
        &no_ext(),
        ExecuteMsg::UpdateConfig {
            max_hops: None,
            whitelisted_tokens: None,
            whitelisted_tip_tokens: None,
            max_spread: None,
        },
    )
    .unwrap_err();
    assert_eq!(err, ContractError::Unauthorized {});
}

#[test]
fn update_config() {
    let mut state = setup_test();

    // all fields omitted: nothing changes
    execute(
        &mut state,
        &Env { block_time: 10 },
        &mock_info("factory_owner", vec![]),
        &no_ext(),
        ExecuteMsg::UpdateConfig {
            max_hops: None,
            whitelisted_tokens: None,
            whitelisted_tip_tokens: None,
            max_spread: None,
        },
    )
    .unwrap();
    let res = get_config(&state);
    assert_eq!(res.max_hops, 2);
    assert_eq!(res.max_spread, 10_000_000_000_000_000);
    assert_eq!(res.whitelisted_tokens, vec![native("uluna"), token("allowed1"), token("allowed2")]);

    // all fields provided: each is overwritten
    execute(
        &mut state,
        &Env { block_time: 10 },
        &mock_info("factory_owner", vec![]),
        &no_ext(),
        ExecuteMsg::UpdateConfig {
            max_hops: Some(10),
            whitelisted_tokens: Some(vec![token("allowed")]),
            whitelisted_tip_tokens: Some(vec![TipAssetInfo {
                info: token("ibc/usdt"),
                per_hop_fee: 0,
            }]),
            max_spread: Some(500_000_000_000_000_000),
        },
    )
    .unwrap();
    let res = get_config(&state);
    assert_eq!(
        res,
        ConfigResponse {
            max_hops: 10,
            max_spread: 500_000_000_000_000_000,
            whitelisted_tokens: vec![token("allowed")],
            whitelisted_tip_tokens: vec![TipAssetInfo { info: token("ibc/usdt"), per_hop_fee: 0 }],
            factory_addr: "factory".to_string(),
            router_addr: "router".to_string(),
        }
    );
}

#[test]
fn update_user_config_works() {
    let mut state = setup_test();
    execute(
        &mut state,
        &Env { block_time: 10 },
        &mock_info("userone", vec![]),
        &no_ext(),
        ExecuteMsg::UpdateUserConfig {
            max_hops: Some(1),
            max_spread: Some(20_000_000_000_000_000),
        },
    )
    .unwrap();
    let config = get_user_config(&state, "userone".to_string());
    assert_eq!(config.max_hops, Some(1));
    assert_eq!(config.max_spread, Some(20_000_000_000_000_000));
}

#[test]
fn test_queries() {
    let mut state = setup_test();
    let ext = ext_with(vec![
        allowance("token-a", "alice", 50),
        allowance("token-b", "alice", 5),
        allowance("token-c", "alice", 10),
        allowance("token-a", "user2", 2),
    ]);
    let max_spread = Some(100_000_000_000_000_000);

    for (who, t, target, interval, amount, dca) in [
        ("alice", "token-a", token("astro"), 12 * 60 * 60, 2u128, 1u128),
        ("alice", "token-b", token("astro"), 24 * 60 * 60, 5, 1),
        ("alice", "token-c", native("uluna"), 7 * 24 * 60 * 60, 10, 5),
        ("user2", "token-a", token("astro"), 24 * 60 * 60, 2, 1),
        ("alice", "token-a", token("astro"), 12 * 60 * 60, 40, 10),
    ] {
        execute(
            &mut state,
            &Env { block_time: 10 },
            &mock_info(who, vec![]),
            &ext,
            ExecuteMsg::CreateDcaOrder {
                initial_asset: Asset { info: token(t), amount },
                target_asset: target,
                interval,
                dca_amount: dca,
                start_purchase: None,
                max_hops: None,
                max_spread,
            },
        )
        .unwrap();
    }

    add_bot_tip(&mut state, &"alice".to_string(), native_amount("uluna", 1)).unwrap();
    receive(
        &mut state,
        &mock_info("ibc/usdc", vec![]),
        &"alice".to_string(),
        4,
        Cw20HookMsg::AddBotTips {},
    )
    .unwrap();

    // one order by id
    let res = get_dca_order(&state, 4).unwrap();
    assert_eq!(
        res,
        DcaInfo {
            id: 4,
            owner: "user2".to_string(),
            initial_asset: Asset { info: token("token-a"), amount: 2 },
            target_asset: token("astro"),
            interval: 24 * 60 * 60,
            last_purchase: 0,
            dca_amount: 1,
            start_purchase: None,
            max_hops: None,
            max_spread,
        }
    );
    assert_eq!(get_dca_order(&state, 9).unwrap_err(), ContractError::NonExistentDca {});

    // all orders, with cursor and limit
    let ids: Vec<u64> = get_dca_orders(&state, None, None).iter().map(|a| a.id).collect();
    assert_eq!(ids, vec![1, 2, 3, 4, 5]);
    let ids2: Vec<u64> = get_dca_orders(&state, Some(2), None).iter().map(|a| a.id).collect();
    assert_eq!(ids2, vec![3, 4, 5]);
    let ids3: Vec<u64> = get_dca_orders(&state, None, Some(1)).iter().map(|a| a.id).collect();
    assert_eq!(ids3, vec![1]);

    // one user's orders in one asset
    let res =
        get_user_asset_dca_orders(&state, &ext, "alice".to_string(), token("token-a"), None, None);
    let ids: Vec<u64> = res.iter().map(|a| a.info.id).collect();
    assert_eq!(ids, vec![1, 5]);
    assert!(res.iter().all(|a| a.info.owner == "alice"));
    assert!(res.iter().all(|a| a.info.initial_asset.info == token("token-a")));
    assert_eq!(res[0].token_allowance, 50);

    let res = get_user_asset_dca_orders(
        &state,
        &ext,
        "alice".to_string(),
        token("token-a"),
        Some(2),
        None,
    );
    let ids: Vec<u64> = res.iter().map(|a| a.info.id).collect();
    assert_eq!(ids, vec![5]);

    // one user's orders
    let res = get_user_dca_orders(&state, &ext, "alice".to_string(), None, None);
    let ids: Vec<u64> = res.iter().map(|a| a.info.id).collect();
    assert_eq!(ids, vec![1, 2, 3, 5]);
    assert!(res.iter().all(|a| a.info.owner == "alice"));

    let res = get_user_dca_orders(&state, &ext, "alice".to_string(), Some(2), None);
    let ids: Vec<u64> = res.iter().map(|a| a.info.id).collect();
    assert_eq!(ids, vec![3, 5]);

    // one user's tips
    assert_eq!(
        get_user_tips(&state, "alice".to_string()),
        vec![
            native_amount("uluna", 1),
            Asset { info: token("ibc/usdc"), amount: 4 },
        ]
    );
}

#[test]
fn get_all_dca_orders_directions() {
    let mut state = setup_test();
    let ext = ext_with(vec![allowance("token-a", "alice", 100)]);
    for _ in 0..4 {
        execute(
            &mut state,
            &Env { block_time: 10 },
            &mock_info("alice", vec![]),
            &ext,
            ExecuteMsg::CreateDcaOrder {
                initial_asset: Asset { info: token("token-a"), amount: 10 },
                target_asset: token("astro"),
                interval: 600,
                dca_amount: 5,
                start_purchase: None,
                max_hops: None,
                max_spread: None,
            },
        )
        .unwrap();
    }
    let desc: Vec<u64> = astroport_dca::get_all_dca_orders(&state, None, None, None)
        .iter()
        .map(|o| o.id)
        .collect();
    assert_eq!(desc, vec![4, 3, 2, 1]);
    let desc_bounded: Vec<u64> = astroport_dca::get_all_dca_orders(&state, Some(3), Some(1), None)
        .iter()
        .map(|o| o.id)
        .collect();
    assert_eq!(desc_bounded, vec![2]);
    let asc: Vec<u64> = astroport_dca::get_all_dca_orders(&state, Some(1), None, Some(true))
        .iter()
        .map(|o| o.id)
        .collect();
    assert_eq!(asc, vec![2, 3, 4]);
}
