//! Executing a purchase.  Anyone may call this — execution is a
//! permissionless, incentivized action — handing in a route from the
//! order's deposited asset to its target.  After the route, timing and
//! balance gates pass, the order is debited by one purchase, the bot's fee
//! is taken from the owner's tip ledger (first sufficient jar entry in
//! stored order; a payment is never split across assets), and three
//! messages go out: the token draw-down for a token deposit, the swap
//! request to the router, and the fee payment to the caller.  The debits
//! commit with the call; the router's later outcome is not waited for.
//!
//! Timing gate: a purchase exactly at `last_purchase + interval` is
//! accepted; only strictly earlier calls fail.  An order whose balance
//! reaches zero leaves the store in the same commit.

use vstd::prelude::*;

use crate::asset::Asset;
use crate::asset::AssetInfo;
use crate::asset::Coin;
use crate::dca::SwapOperation;
use crate::error::err_is;
use crate::error::ContractError;
use crate::helpers::asset_transfer;
use crate::helpers::spec_asset_transfer;
use crate::msg::Env;
use crate::msg::MessageInfo;
use crate::response::is_text_attr;
use crate::response::is_uint_attr;
use crate::response::push_text_attr;
use crate::response::push_uint_attr;
use crate::response::Attribute;
use crate::response::DcaEvent;
use crate::response::EventKind;
use crate::response::OutMsg;
use crate::response::Response;
use crate::state::lemma_balance_after_jar_update;
use crate::state::lemma_ids_remove;
use crate::state::lemma_ids_update;
use crate::state::lemma_sum_remove;
use crate::state::lemma_sum_unique_entry;
use crate::state::lemma_sum_update;
use crate::state::spec_has_jar;
use crate::state::spec_has_order;
use crate::state::spec_is_whitelisted;
use crate::state::spec_jar_index;
use crate::state::spec_order_index;
use crate::state::spec_tip_fee;
use crate::state::spec_user_config;
use crate::state::State;
use crate::dca::DcaInfo;
use crate::state::wf_order;
use crate::dca::TipAssetInfo;
use crate::user_config::resolve_max_hops;
use crate::user_config::resolve_max_spread;
use crate::user_config::spec_resolve;

verus! {

/// Some step of the route is a native-pair swap.
pub open spec fn spec_route_has_native(hops: Seq<SwapOperation>) -> bool {
    exists|i: int| 0 <= i < hops.len() && (hops[i] is NativeSwap)
}

/// The route's first step offers the given asset.
pub open spec fn spec_route_starts_at(hops: Seq<SwapOperation>, info: AssetInfo) -> bool {
    hops[0] matches SwapOperation::AstroSwap { offer_asset_info, .. }
        && offer_asset_info.matches(info)
}

/// The route's last step asks for the given asset.
pub open spec fn spec_route_ends_at(hops: Seq<SwapOperation>, info: AssetInfo) -> bool {
    hops.last() matches SwapOperation::AstroSwap { ask_asset_info, .. }
        && ask_asset_info.matches(info)
}

/// Every intermediate asset of the route — what each step but the last asks
/// for — is whitelisted.
pub open spec fn spec_route_middles_whitelisted(
    hops: Seq<SwapOperation>,
    wl: Seq<AssetInfo>,
) -> bool {
    forall|i: int|
        0 <= i < hops.len() - 1 ==> ((#[trigger] hops[i]) matches SwapOperation::AstroSwap {
            ask_asset_info,
            ..
        } ==> spec_is_whitelisted(wl, ask_asset_info))
}

/// The order is not yet eligible: its start time lies ahead, or one full
/// interval has not passed since the last purchase.  A call exactly at
/// `last_purchase + interval` is eligible.
pub open spec fn spec_too_early(order: crate::dca::DcaInfo, now: u64) -> bool {
    ||| (order.start_purchase matches Some(s) && s > now)
    ||| (order.last_purchase > 0 && order.last_purchase + order.interval > now)
}

/// How the tip fee is taken from a jar: walking the entries in stored
/// order, the first whitelisted entry whose balance covers
/// `per_hop_fee * hops` pays; a whitelisted entry whose fee computation
/// overflows stops the walk with an overflow error; running out of entries
/// means no single balance suffices.
pub open spec fn spec_pick_tip(
    tips: Seq<Asset>,
    wl: Seq<TipAssetInfo>,
    hops_len: u128,
) -> Result<(int, u128), ContractError>
    decreases tips.len(),
{
    if tips.len() == 0 {
        Err(ContractError::InsufficientTipBalance {})
    } else {
        let rest = match spec_pick_tip(tips.drop_first(), wl, hops_len) {
            Ok((i, c)) => Ok::<(int, u128), ContractError>((i + 1, c)),
            Err(e) => Err(e),
        };
        match spec_tip_fee(wl, tips[0].info) {
            Some(fee) => if fee * hops_len > u128::MAX {
                Err(ContractError::Overflow {})
            } else if fee * hops_len <= tips[0].amount {
                Ok((0, (fee * hops_len) as u128))
            } else {
                rest
            },
            None => rest,
        }
    }
}

/// Takes the fee for a purchase over `hops_len` hops from the owner's tip
/// ledger and returns the payment asset for the bot.
///
/// On success exactly the owner's balance in the chosen asset shrinks by
/// the fee; on failure nothing changes.
#[verifier::loop_isolation(false)]
fn take_payment_from_tip_jar(state: &mut State, owner: &String, hops_len: u32) -> (r: Result<
    Asset,
    ContractError,
>)
    requires
        old(state).wf(),
    ensures
        final(state).wf(),
        r is Err ==> *final(state) == *old(state),
        final(state).config == old(state).config,
        final(state).orders == old(state).orders,
        final(state).dca_id == old(state).dca_id,
        final(state).user_configs == old(state).user_configs,
        !spec_has_jar(old(state).tip_jars@, owner@) ==> err_is_asset(
            r,
            ContractError::NoTipBalance {},
        ),
        spec_has_jar(old(state).tip_jars@, owner@) ==> ({
            let tips = old(state).tip_jars@[spec_jar_index(old(state).tip_jars@, owner@)].tips@;
            match spec_pick_tip(
                tips,
                old(state).config.whitelisted_tip_tokens@,
                hops_len as u128,
            ) {
                Ok((k, cost)) => r == Ok::<Asset, ContractError>(
                    Asset { info: tips[k].info, amount: cost },
                ) && (forall|o: Seq<char>, info2: AssetInfo|
                    (#[trigger] final(state).tip_balance(o, info2)) == old(state).tip_balance(
                        o,
                        info2,
                    ) - if o == owner@ && tips[k].info.matches(info2) {
                        cost as int
                    } else {
                        0
                    }),
                Err(e) => err_is_asset(r, e),
            }
        }),
{
    let j = match state.find_jar(owner) {
        None => {
            return Err(ContractError::NoTipBalance {});
        },
        Some(j) => j,
    };
    let ghost s1 = *state;
    let ghost tips0 = state.tip_jars@[j as int].tips@;
    let ghost wl = state.config.whitelisted_tip_tokens@;
    let n: u128 = hops_len as u128;
    proof {
        assert(tips0.subrange(0, tips0.len() as int) =~= tips0);
    }
    let mut k: usize = 0;
    while k < state.tip_jars[j].tips.len()
        invariant
            *state == s1,
            s1.wf(),
            j < s1.tip_jars@.len(),
            s1.tip_jars@[j as int].owner@ == owner@,
            spec_jar_index(s1.tip_jars@, owner@) == j,
            tips0 == s1.tip_jars@[j as int].tips@,
            wl == s1.config.whitelisted_tip_tokens@,
            n == hops_len as u128,
            0 <= k <= tips0.len(),
            spec_pick_tip(tips0, wl, n) == shift_pick(
                spec_pick_tip(tips0.subrange(k as int, tips0.len() as int), wl, n),
                k as int,
            ),
        decreases tips0.len() - k,
    {
        let ghost suffix = tips0.subrange(k as int, tips0.len() as int);
        proof {
            assert(suffix.len() > 0);
            assert(suffix[0] == tips0[k as int]);
            assert(suffix.drop_first() =~= tips0.subrange(k as int + 1, tips0.len() as int));
        }
        let entry_amount = state.tip_jars[j].tips[k].amount;
        if let Some(fee) = state.config.tip_fee_for(&state.tip_jars[j].tips[k].info) {
            let cost = match fee.checked_mul(n) {
                None => {
                    return Err(ContractError::Overflow {});
                },
                Some(cost) => cost,
            };
            if cost <= entry_amount {
                let payment_info = state.tip_jars[j].tips[k].info.duplicate();
                let ghost jar1 = state.tip_jars@[j as int];
                proof {
                    assert(spec_pick_tip(suffix, wl, n) == Ok::<(int, u128), ContractError>(
                        (0, cost),
                    ));
                    lemma_sum_unique_entry(jar1.tips@, k as int, jar1.tips@[k as int].info);
                }
                if cost == entry_amount {
                    state.tip_jars[j].tips.remove(k);
                    proof {
                        let jar2 = state.tip_jars@[j as int];
                        assert(jar2.tips@ =~= jar1.tips@.remove(k as int));
                        assert forall|k2: int, l2: int|
                            0 <= k2 < l2 < jar2.tips@.len() implies !(
                        #[trigger] jar2.tips@[k2].info).matches(
                            #[trigger] jar2.tips@[l2].info,
                        ) by {
                            let k0 = if k2 < k as int { k2 } else { k2 + 1 };
                            let l0 = if l2 < k as int { l2 } else { l2 + 1 };
                            assert(!jar1.tips@[k0].info.matches(jar1.tips@[l0].info));
                        }
                        lemma_balance_after_jar_update(s1, *state, j as int);
                        assert forall|o: Seq<char>, info2: AssetInfo|
                            (#[trigger] state.tip_balance(o, info2)) == s1.tip_balance(o, info2)
                                - if o == owner@ && jar1.tips@[k as int].info.matches(info2) {
                                cost as int
                            } else {
                                0
                            } by {
                            if o == owner@ {
                                lemma_sum_remove(jar1.tips@, k as int, info2);
                            }
                        }
                    }
                } else {
                    state.tip_jars[j].tips[k].amount = entry_amount - cost;
                    proof {
                        let jar2 = state.tip_jars@[j as int];
                        assert(jar2.tips@ =~= jar1.tips@.update(
                            k as int,
                            Asset {
                                info: jar1.tips@[k as int].info,
                                amount: (entry_amount - cost) as u128,
                            },
                        ));
                        lemma_balance_after_jar_update(s1, *state, j as int);
                        assert forall|o: Seq<char>, info2: AssetInfo|
                            (#[trigger] state.tip_balance(o, info2)) == s1.tip_balance(o, info2)
                                - if o == owner@ && jar1.tips@[k as int].info.matches(info2) {
                                cost as int
                            } else {
                                0
                            } by {
                            if o == owner@ {
                                lemma_sum_update(
                                    jar1.tips@,
                                    k as int,
                                    Asset {
                                        info: jar1.tips@[k as int].info,
                                        amount: (entry_amount - cost) as u128,
                                    },
                                    info2,
                                );
                            }
                        }
                    }
                }
                return Ok(Asset { info: payment_info, amount: cost });
            }
            proof {
                assert(spec_pick_tip(suffix, wl, n) == shift_pick(
                    spec_pick_tip(suffix.drop_first(), wl, n),
                    1,
                ));
            }
        } else {
            proof {
                assert(spec_pick_tip(suffix, wl, n) == shift_pick(
                    spec_pick_tip(suffix.drop_first(), wl, n),
                    1,
                ));
            }
        }
        k = k + 1;
        proof {
            lemma_shift_pick_compose(
                spec_pick_tip(tips0.subrange(k as int, tips0.len() as int), wl, n),
                k as int,
            );
        }
    }
    Err(ContractError::InsufficientTipBalance {})
}

/// The route length reported in a too-many-hops error, clamped to the
/// payload's width.
pub open spec fn spec_hops_len_u32(hops: Seq<SwapOperation>) -> u32 {
    if hops.len() > u32::MAX as int {
        u32::MAX
    } else {
        hops.len() as u32
    }
}

/// A purchase call is accepted: the order exists, the route is well formed
/// and within the effective hop cap, the timing gate and the balance gate
/// pass, and the owner's tip ledger can pay the fee.
pub open spec fn spec_purchase_accepted(
    s: State,
    now: u64,
    id: u64,
    hops: Seq<SwapOperation>,
) -> bool {
    &&& spec_has_order(s.orders@, id)
    &&& hops.len() > 0
    &&& ({
        let order = s.orders@[spec_order_index(s.orders@, id)];
        let eff_hops = spec_resolve(
            order.max_hops,
            spec_user_config(s, order.owner@).max_hops,
            s.config.max_hops,
        );
        &&& hops.len() <= eff_hops as int
        &&& !spec_route_has_native(hops)
        &&& spec_route_starts_at(hops, order.initial_asset.info)
        &&& spec_route_ends_at(hops, order.target_asset)
        &&& spec_route_middles_whitelisted(hops, s.config.whitelisted_tokens@)
        &&& !spec_too_early(order, now)
        &&& order.initial_asset.amount >= order.dca_amount
        &&& spec_has_jar(s.tip_jars@, order.owner@)
        &&& spec_pick_tip(
            s.tip_jars@[spec_jar_index(s.tip_jars@, order.owner@)].tips@,
            s.config.whitelisted_tip_tokens@,
            hops.len() as u128,
        ) is Ok
    })
}

/// Performs one purchase on the order with the given id, over the given
/// route, on behalf of whoever owns the order; the caller earns the fee.
///
/// On success the order's balance shrinks by one purchase and its
/// `last_purchase` moves to the call time; an order whose balance reaches
/// zero is removed in the same commit and the response reports
/// `PurchaseFinished`.  The owner's tip balance in the chosen asset shrinks
/// by `per_hop_fee` times the route length.  The messages go out in fixed
/// order: the allowance draw-down for a token deposit, the router swap
/// request carrying the route and the effective spread, and the fee payment
/// to the caller.  On failure nothing changes, and the error names the
/// first gate that did not hold.
#[verifier::loop_isolation(false)]
pub fn perform_dca_purchase(
    state: &mut State,
    env: &Env,
    info: &MessageInfo,
    id: u64,
    hops: Vec<SwapOperation>,
) -> (r: Result<Response, ContractError>)
    requires
        old(state).wf(),
    ensures
        final(state).wf(),
        r is Err ==> *final(state) == *old(state),
        r is Ok <==> spec_purchase_accepted(*old(state), env.block_time, id, hops@),
        final(state).config == old(state).config,
        final(state).dca_id == old(state).dca_id,
        final(state).user_configs == old(state).user_configs,
        !spec_has_order(old(state).orders@, id) ==> err_is(r, ContractError::NonExistentDca {}),
        spec_has_order(old(state).orders@, id) && hops@.len() == 0 ==> err_is(
            r,
            ContractError::EmptyHopRoute {},
        ),
        spec_has_order(old(state).orders@, id) && hops@.len() > 0 ==> ({
            let order = old(state).orders@[spec_order_index(old(state).orders@, id)];
            let eff_hops = spec_resolve(
                order.max_hops,
                spec_user_config(*old(state), order.owner@).max_hops,
                old(state).config.max_hops,
            );
            &&& hops@.len() > eff_hops as int ==> r == Err::<Response, ContractError>(
                ContractError::MaxHopsAssertion { hops: spec_hops_len_u32(hops@) },
            )
            &&& hops@.len() <= eff_hops as int && spec_route_has_native(hops@) ==> err_is(
                r,
                ContractError::NativeSwapNotSupported {},
            )
            &&& hops@.len() <= eff_hops as int && !spec_route_has_native(hops@)
                && !spec_route_starts_at(hops@, order.initial_asset.info) ==> err_is(
                r,
                ContractError::InitialAssetAssertion {},
            )
            &&& hops@.len() <= eff_hops as int && !spec_route_has_native(hops@)
                && spec_route_starts_at(hops@, order.initial_asset.info) && !spec_route_ends_at(
                hops@,
                order.target_asset,
            ) ==> err_is(r, ContractError::TargetAssetAssertion {})
            &&& hops@.len() <= eff_hops as int && !spec_route_has_native(hops@)
                && spec_route_starts_at(hops@, order.initial_asset.info) && spec_route_ends_at(
                hops@,
                order.target_asset,
            ) && !spec_route_middles_whitelisted(hops@, old(state).config.whitelisted_tokens@)
                ==> (r matches Err(e) && (e matches ContractError::InvalidHopRoute { token }
                && exists|i: int|
                0 <= i < hops@.len() - 1 && ((#[trigger] hops@[i])
                    matches SwapOperation::AstroSwap { ask_asset_info, .. } && !spec_is_whitelisted(
                    old(state).config.whitelisted_tokens@,
                    ask_asset_info,
                ) && token@ == ask_asset_info.spec_id())))
            &&& hops@.len() <= eff_hops as int && !spec_route_has_native(hops@)
                && spec_route_starts_at(hops@, order.initial_asset.info) && spec_route_ends_at(
                hops@,
                order.target_asset,
            ) && spec_route_middles_whitelisted(hops@, old(state).config.whitelisted_tokens@)
                && spec_too_early(order, env.block_time) ==> err_is(
                r,
                ContractError::PurchaseTooEarly {},
            )
            &&& hops@.len() <= eff_hops as int && !spec_route_has_native(hops@)
                && spec_route_starts_at(hops@, order.initial_asset.info) && spec_route_ends_at(
                hops@,
                order.target_asset,
            ) && spec_route_middles_whitelisted(hops@, old(state).config.whitelisted_tokens@)
                && !spec_too_early(order, env.block_time) && order.initial_asset.amount
                < order.dca_amount ==> err_is(r, ContractError::InsufficientBalance {})
            &&& hops@.len() <= eff_hops as int && !spec_route_has_native(hops@)
                && spec_route_starts_at(hops@, order.initial_asset.info) && spec_route_ends_at(
                hops@,
                order.target_asset,
            ) && spec_route_middles_whitelisted(hops@, old(state).config.whitelisted_tokens@)
                && !spec_too_early(order, env.block_time) && order.initial_asset.amount
                >= order.dca_amount ==> {
                if !spec_has_jar(old(state).tip_jars@, order.owner@) {
                    err_is(r, ContractError::NoTipBalance {})
                } else {
                    match spec_pick_tip(
                        old(state).tip_jars@[spec_jar_index(
                            old(state).tip_jars@,
                            order.owner@,
                        )].tips@,
                        old(state).config.whitelisted_tip_tokens@,
                        hops@.len() as u128,
                    ) {
                        Ok(kc) => r is Ok,
                        Err(e) => err_is(r, e),
                    }
                }
            }
        }),
        r is Ok ==> ({
            let i = spec_order_index(old(state).orders@, id);
            let order = old(state).orders@[i];
            let j = spec_jar_index(old(state).tip_jars@, order.owner@);
            let tips = old(state).tip_jars@[j].tips@;
            let new_amount = order.initial_asset.amount - order.dca_amount;
            match spec_pick_tip(
                tips,
                old(state).config.whitelisted_tip_tokens@,
                hops@.len() as u128,
            ) {
                Ok(kc) => ({
                    let tip_info = tips[kc.0].info;
                    let cost = kc.1;
                    &&& final(state).orders@ == if new_amount == 0 {
                        old(state).orders@.remove(i)
                    } else {
                        old(state).orders@.update(
                            i,
                            DcaInfo {
                                initial_asset: Asset {
                                    info: order.initial_asset.info,
                                    amount: new_amount as u128,
                                },
                                last_purchase: env.block_time,
                                ..order
                            },
                        )
                    }
                    &&& new_amount == 0 ==> !spec_has_order(final(state).orders@, id)
                    &&& forall|o: Seq<char>, info2: AssetInfo|
                        (#[trigger] final(state).tip_balance(o, info2)) == old(
                            state,
                        ).tip_balance(o, info2) - if o == order.owner@ && tip_info.matches(
                            info2,
                        ) {
                            cost as int
                        } else {
                            0
                        }
                    &&& r matches Ok(resp) && ({
                        let base = if order.initial_asset.info is Token {
                            1int
                        } else {
                            0int
                        };
                        &&& resp.messages@.len() == base + 2
                        &&& (order.initial_asset.info matches AssetInfo::Token { contract_addr }
                            ==> resp.messages@[0] == OutMsg::Cw20TransferFrom {
                            token_addr: contract_addr,
                            owner: order.owner,
                            recipient: old(state).config.router_addr,
                            amount: order.dca_amount,
                        })
                        &&& (resp.messages@[base] matches OutMsg::RouterSwap {
                            router_addr,
                            operations,
                            minimum_receive,
                            to,
                            max_spread,
                            funds,
                        } && router_addr@ == old(state).config.router_addr@ && operations@
                            == hops@ && minimum_receive is None && to@ == order.owner@
                            && max_spread == spec_resolve(
                            order.max_spread,
                            spec_user_config(*old(state), order.owner@).max_spread,
                            old(state).config.max_spread,
                        ) && (match order.initial_asset.info {
                            AssetInfo::NativeToken { denom } => funds@ == seq![
                                Coin { denom, amount: order.dca_amount },
                            ],
                            AssetInfo::Token { .. } => funds@ == Seq::<Coin>::empty(),
                        }))
                        &&& resp.messages@[base + 1] == spec_asset_transfer(
                            tip_info,
                            cost,
                            info.sender,
                        )
                        &&& resp.event == Some(
                            DcaEvent {
                                kind: if new_amount == 0 {
                                    EventKind::PurchaseFinished
                                } else {
                                    EventKind::PurchaseExecuted
                                },
                                id,
                                owner: order.owner,
                            },
                        )
                        &&& resp.attributes@.len() == 3
                        &&& is_text_attr(resp.attributes@[0], "action"@, "perform_dca_purchase"@)
                        &&& is_uint_attr(resp.attributes@[1], "tip_cost"@, cost as u128)
                        &&& (resp.attributes@[2].key@ == "tip_asset"@ && (resp.attributes@[2].value
                            matches crate::response::AttrValue::Text(t) && t@
                            == tip_info.spec_id()))
                    })
                }),
                Err(e) => false,
            }
        }),
{
    let idx = match state.find_order(id) {
        None => {
            return Err(ContractError::NonExistentDca {});
        },
        Some(i) => i,
    };
    if hops.len() == 0 {
        return Err(ContractError::EmptyHopRoute {});
    }
    let order = state.orders[idx].duplicate();
    let uc = state.user_config_of(&order.owner);
    let eff_hops = resolve_max_hops(order.max_hops, uc.max_hops, state.config.max_hops);
    if hops.len() > eff_hops as usize {
        let reported: u32 = if hops.len() >= u32::MAX as usize {
            u32::MAX
        } else {
            hops.len() as u32
        };
        return Err(ContractError::MaxHopsAssertion { hops: reported });
    }
    let mut h: usize = 0;
    while h < hops.len()
        invariant
            0 <= h <= hops@.len(),
            forall|j2: int| 0 <= j2 < h ==> !((#[trigger] hops@[j2]) is NativeSwap),
        decreases hops@.len() - h,
    {
        if let SwapOperation::NativeSwap { .. } = &hops[h] {
            return Err(ContractError::NativeSwapNotSupported {});
        }
        h = h + 1;
    }
    proof {
        assert(!spec_route_has_native(hops@));
    }
    match &hops[0] {
        SwapOperation::AstroSwap { offer_asset_info, .. } => {
            if !offer_asset_info.equal(&order.initial_asset.info) {
                return Err(ContractError::InitialAssetAssertion {});
            }
        },
        SwapOperation::NativeSwap { .. } => {
            return Err(ContractError::NativeSwapNotSupported {});
        },
    }
    match &hops[hops.len() - 1] {
        SwapOperation::AstroSwap { ask_asset_info, .. } => {
            if !ask_asset_info.equal(&order.target_asset) {
                return Err(ContractError::TargetAssetAssertion {});
            }
        },
        SwapOperation::NativeSwap { .. } => {
            return Err(ContractError::NativeSwapNotSupported {});
        },
    }
    let mut m: usize = 0;
    while m < hops.len() - 1
        invariant
            0 <= m <= hops@.len(),
            forall|j2: int|
                0 <= j2 < m ==> ((#[trigger] hops@[j2]) matches SwapOperation::AstroSwap {
                    ask_asset_info,
                    ..
                } ==> spec_is_whitelisted(
                    old(state).config.whitelisted_tokens@,
                    ask_asset_info,
                )),
            *state == *old(state),
        decreases hops@.len() - m,
    {
        match &hops[m] {
            SwapOperation::AstroSwap { ask_asset_info, .. } => {
                if !state.config.is_whitelisted_asset(ask_asset_info) {
                    return Err(ContractError::InvalidHopRoute { token: ask_asset_info.id_string() });
                }
            },
            SwapOperation::NativeSwap { .. } => {
                return Err(ContractError::NativeSwapNotSupported {});
            },
        }
        m = m + 1;
    }
    if let Some(start) = order.start_purchase {
        if start > env.block_time {
            return Err(ContractError::PurchaseTooEarly {});
        }
    }
    if order.last_purchase > 0 && (order.last_purchase as u128) + (order.interval as u128) > (
    env.block_time as u128) {
        return Err(ContractError::PurchaseTooEarly {});
    }
    if order.initial_asset.amount < order.dca_amount {
        return Err(ContractError::InsufficientBalance {});
    }
    let hops_len32: u32 = hops.len() as u32;
    let ghost s1 = *state;
    let payment = match take_payment_from_tip_jar(state, &order.owner, hops_len32) {
        Err(e) => {
            return Err(e);
        },
        Ok(p) => p,
    };
    let new_amount = order.initial_asset.amount - order.dca_amount;
    let mut messages: Vec<OutMsg> = Vec::new();
    match &order.initial_asset.info {
        AssetInfo::Token { contract_addr } => {
            messages.push(
                OutMsg::Cw20TransferFrom {
                    token_addr: contract_addr.clone(),
                    owner: order.owner.clone(),
                    recipient: state.config.router_addr.clone(),
                    amount: order.dca_amount,
                },
            );
        },
        AssetInfo::NativeToken { .. } => {},
    }
    let funds: Vec<Coin> = match &order.initial_asset.info {
        AssetInfo::NativeToken { denom } => {
            let mut v: Vec<Coin> = Vec::new();
            v.push(Coin { denom: denom.clone(), amount: order.dca_amount });
            v
        },
        AssetInfo::Token { .. } => Vec::new(),
    };
    let max_spread = resolve_max_spread(order.max_spread, uc.max_spread, state.config.max_spread);
    messages.push(
        OutMsg::RouterSwap {
            router_addr: state.config.router_addr.clone(),
            operations: hops,
            minimum_receive: None,
            to: order.owner.clone(),
            max_spread,
            funds,
        },
    );
    let tip_asset_text = payment.info.id_string();
    messages.push(asset_transfer(&payment.info, payment.amount, &info.sender));
    let event = DcaEvent {
        kind: if new_amount == 0 {
            EventKind::PurchaseFinished
        } else {
            EventKind::PurchaseExecuted
        },
        id,
        owner: order.owner.clone(),
    };
    let ghost s2 = *state;
    if new_amount == 0 {
        state.orders.remove(idx);
        proof {
            lemma_ids_remove(s2.orders@, idx as int);
        }
    } else {
        state.orders[idx].initial_asset.amount = new_amount;
        state.orders[idx].last_purchase = env.block_time;
        proof {
            let updated = DcaInfo {
                initial_asset: Asset {
                    info: s2.orders@[idx as int].initial_asset.info,
                    amount: new_amount,
                },
                last_purchase: env.block_time,
                ..s2.orders@[idx as int]
            };
            assert(state.orders@ =~= s2.orders@.update(idx as int, updated));
            lemma_ids_update(s2.orders@, idx as int, updated);
            assert(wf_order(updated)) by {
                let a = s2.orders@[idx as int].initial_asset.amount as int;
                let d = s2.orders@[idx as int].dca_amount as int;
                vstd::arithmetic::div_mod::lemma_mod_sub_multiples_vanish(a, d);
                assert((a - d) % d == 0);
                if new_amount < d {
                    vstd::arithmetic::div_mod::lemma_small_mod(
                        new_amount as nat,
                        d as nat,
                    );
                }
            }
        }
    }
    proof {
        assert(state.tip_jars == s2.tip_jars);
        assert forall|o: Seq<char>, info2: AssetInfo|
            (#[trigger] state.tip_balance(o, info2)) == s2.tip_balance(o, info2) by {}
    }
    let mut attrs: Vec<Attribute> = Vec::new();
    push_text_attr(&mut attrs, "action", "perform_dca_purchase");
    push_uint_attr(&mut attrs, "tip_cost", payment.amount);
    push_text_attr(&mut attrs, "tip_asset", tip_asset_text.as_str());
    Ok(Response { messages, attributes: attrs, event: Some(event) })
}

/// The call failed with exactly this error.
pub open spec fn err_is_asset(r: Result<Asset, ContractError>, e: ContractError) -> bool {
    r == Err::<Asset, ContractError>(e)
}

/// Offsetting the index of a pick result.
pub open spec fn shift_pick(
    r: Result<(int, u128), ContractError>,
    k: int,
) -> Result<(int, u128), ContractError> {
    match r {
        Ok((i, c)) => Ok((i + k, c)),
        Err(e) => Err(e),
    }
}

proof fn lemma_shift_pick_compose(r: Result<(int, u128), ContractError>, k: int)
    ensures
        shift_pick(shift_pick(r, 1), k - 1) == shift_pick(r, k),
{
}

} // verus!
