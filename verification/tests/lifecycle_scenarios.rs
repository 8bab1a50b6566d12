use astroport_dca::add_tips;
use astroport_dca::execute;
use astroport_dca::get_dca_orders;
use astroport_dca::get_user_tips;
use astroport_dca::instantiate;
use astroport_dca::Asset;
use astroport_dca::AssetInfo;
use astroport_dca::Coin;
use astroport_dca::ContractError;
use astroport_dca::DcaEvent;
use astroport_dca::Env;
use astroport_dca::EventKind;
use astroport_dca::ExecuteMsg;
use astroport_dca::Externals;
use astroport_dca::InstantiateMsg;
use astroport_dca::MessageInfo;
use astroport_dca::OutMsg;
use astroport_dca::State;
use astroport_dca::SwapOperation;
use astroport_dca::TipAssetInfo;

fn native(d: &str) -> AssetInfo {
    AssetInfo::NativeToken { denom: d.to_string() }
}

fn token(t: &str) -> AssetInfo {
    AssetInfo::Token { contract_addr: t.to_string() }
}

fn native_amount(d: &str, amount: u128) -> Asset {
    Asset { info: native(d), amount }
}

fn coin(amount: u128, d: &str) -> Coin {
    Coin { denom: d.to_string(), amount }
}

fn mock_info(sender: &str, funds: Vec<Coin>) -> MessageInfo {
    MessageInfo { sender: sender.to_string(), funds }
}

fn no_ext() -> Externals {
    Externals { factory_owner: "factory_owner".to_string(), allowances: Vec::new() }
}

fn setup() -> State {
    let (state, _resp) = instantiate(InstantiateMsg {
        max_hops: 3,
        whitelisted_tokens: vec![native("uluna")],
        whitelisted_tip_tokens: vec![TipAssetInfo { info: native("uluna"), per_hop_fee: 1 }],
        max_spread: 10_000_000_000_000_000,
        factory_addr: "factory".to_string(),
        router_addr: "router".to_string(),
    });
    state
}

fn create_uluna_order(state: &mut State, at: u64, initial: u128, dca_amount: u128) -> Result<
    astroport_dca::Response,
    ContractError,
> {
    execute(
        state,
        &Env { block_time: at },
        &mock_info("user", vec![coin(initial, "uluna")]),
        &no_ext(),
        ExecuteMsg::CreateDcaOrder {
            initial_asset: native_amount("uluna", initial),
            target_asset: token("usdt"),
            interval: 86400,
            dca_amount,
            start_purchase: None,
            max_hops: None,
            max_spread: None,
        },
    )
}

fn purchase(state: &mut State, at: u64) -> Result<astroport_dca::Response, ContractError> {
    execute(
        state,
        &Env { block_time: at },
        &mock_info("bot", vec![]),
        &no_ext(),
        ExecuteMsg::PerformDcaPurchase {
            id: 1,
            hops: vec![SwapOperation::AstroSwap {
                offer_asset_info: native("uluna"),
                ask_asset_info: token("usdt"),
            }],
        },
    )
}

#[test]
fn order_runs_from_creation_to_exhaustion() {
    let mut state = setup();
    add_tips(&mut state, &mock_info("user", vec![coin(1_000, "uluna")])).unwrap();

    // the first order takes id one and stores the full deposit
    create_uluna_order(&mut state, 100, 1000, 100).unwrap();
    let orders = get_dca_orders(&state, None, None);
    assert_eq!(orders[0].id, 1);
    assert_eq!(orders[0].initial_asset.amount, 1000);

    // an indivisible deposit is refused outright
    let err = create_uluna_order(&mut state, 100, 1000, 999).unwrap_err();
    assert_eq!(err, ContractError::IndivisibleDeposit {});

    // a purchase at the creation time itself goes through
    let res = purchase(&mut state, 100).unwrap();
    assert_eq!(res.messages.len(), 2);
    assert_eq!(
        res.messages[0],
        OutMsg::RouterSwap {
            router_addr: "router".to_string(),
            operations: vec![SwapOperation::AstroSwap {
                offer_asset_info: native("uluna"),
                ask_asset_info: token("usdt"),
            }],
            minimum_receive: None,
            to: "user".to_string(),
            max_spread: 10_000_000_000_000_000,
            funds: vec![coin(100, "uluna")],
        }
    );
    assert_eq!(
        res.messages[1],
        OutMsg::BankSend { to_address: "bot".to_string(), denom: "uluna".to_string(), amount: 1 }
    );
    let orders = get_dca_orders(&state, None, None);
    assert_eq!(orders[0].initial_asset.amount, 900);
    assert_eq!(orders[0].last_purchase, 100);
    assert_eq!(get_user_tips(&state, "user".to_string()), vec![native_amount("uluna", 999)]);

    // another purchase inside the interval fails and moves nothing
    let err = purchase(&mut state, 100 + 86399).unwrap_err();
    assert_eq!(err, ContractError::PurchaseTooEarly {});
    assert_eq!(get_dca_orders(&state, None, None)[0].initial_asset.amount, 900);
    assert_eq!(get_user_tips(&state, "user".to_string()), vec![native_amount("uluna", 999)]);

    // nine more purchases, one interval apart, drain the deposit
    for n in 1..=9u64 {
        let res = purchase(&mut state, 100 + n * 86400).unwrap();
        if n < 9 {
            assert_eq!(
                res.event,
                Some(DcaEvent {
                    kind: EventKind::PurchaseExecuted,
                    id: 1,
                    owner: "user".to_string(),
                })
            );
        } else {
            assert_eq!(
                res.event,
                Some(DcaEvent {
                    kind: EventKind::PurchaseFinished,
                    id: 1,
                    owner: "user".to_string(),
                })
            );
        }
    }

    // the exhausted order is gone; one more attempt names no order
    assert_eq!(get_dca_orders(&state, None, None).len(), 0);
    let err = purchase(&mut state, 100 + 10 * 86400).unwrap_err();
    assert_eq!(err, ContractError::NonExistentDca {});
}

#[test]
fn cancel_refunds_remaining_deposit() {
    let mut state = setup();
    add_tips(&mut state, &mock_info("user", vec![coin(1_000, "uluna")])).unwrap();
    create_uluna_order(&mut state, 100, 1000, 100).unwrap();
    for n in 0..5u64 {
        purchase(&mut state, 100 + n * 86400).unwrap();
    }
    assert_eq!(get_dca_orders(&state, None, None)[0].initial_asset.amount, 500);

    let res = execute(
        &mut state,
        &Env { block_time: 100 },
        &mock_info("user", vec![]),
        &no_ext(),
        ExecuteMsg::CancelDcaOrder { id: 1 },
    )
    .unwrap();
    assert_eq!(
        res.messages,
        vec![OutMsg::BankSend {
            to_address: "user".to_string(),
            denom: "uluna".to_string(),
            amount: 500,
        }]
    );
    assert_eq!(get_dca_orders(&state, None, None).len(), 0);

    let err = execute(
        &mut state,
        &Env { block_time: 100 },
        &mock_info("user", vec![]),
        &no_ext(),
        ExecuteMsg::CancelDcaOrder { id: 1 },
    )
    .unwrap_err();
    assert_eq!(err, ContractError::NonExistentDca {});
}
