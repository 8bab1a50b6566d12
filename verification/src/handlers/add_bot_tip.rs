//! Crediting a tip: the deposit that funds future purchase executions for a
//! user.  The asset must be tip-whitelisted and the amount positive; the
//! credit lands in the user's jar entry for that asset, created on first use.

use vstd::prelude::*;

use crate::asset::Asset;
use crate::asset::AssetInfo;
use crate::asset::Coin;
use crate::dca::TipAssetInfo;
use crate::error::err_is;
use crate::msg::MessageInfo;
use crate::error::ContractError;
use crate::response::is_text_attr;
use crate::response::is_uint_attr;
use crate::response::push_text_attr;
use crate::response::push_uint_attr;
use crate::response::Attribute;
use crate::response::Response;
use crate::state::lemma_balance_after_jar_push;
use crate::state::lemma_balance_after_jar_update;
use crate::state::lemma_sum_no_entry;
use crate::state::lemma_sum_push;
use crate::state::lemma_sum_unique_entry;
use crate::state::lemma_sum_update;
use crate::state::find_tip_index;
use crate::state::spec_has_jar;
use crate::state::spec_jar_index;
use crate::state::spec_tip_fee;
use crate::state::State;
use crate::state::TipJar;

verus! {

/// The credit is accepted: a positive amount of a whitelisted tip asset
/// whose new balance still fits the numeric type.
pub open spec fn spec_tip_accepted(s: State, sender: Seq<char>, asset: Asset) -> bool {
    &&& asset.amount > 0
    &&& spec_tip_fee(s.config.whitelisted_tip_tokens@, asset.info) is Some
    &&& s.tip_balance(sender, asset.info) + asset.amount <= u128::MAX
}

/// Credits `asset` to the sender's tip ledger.
///
/// On success exactly the sender's balance in that asset grows by the
/// credited amount; every other balance, the orders, and the configuration
/// are untouched.  On failure nothing changes.
pub fn add_bot_tip(state: &mut State, sender: &String, asset: Asset) -> (r: Result<
    Response,
    ContractError,
>)
    requires
        old(state).wf(),
    ensures
        final(state).wf(),
        r is Err ==> *final(state) == *old(state),
        r is Ok <==> spec_tip_accepted(*old(state), sender@, asset),
        asset.amount == 0 ==> err_is(r, ContractError::InvalidZeroAmount {}),
        asset.amount > 0 && spec_tip_fee(old(state).config.whitelisted_tip_tokens@, asset.info)
            is None ==> err_is(r, ContractError::InvalidTipAssetInfo {}),
        asset.amount > 0 && spec_tip_fee(old(state).config.whitelisted_tip_tokens@, asset.info)
            is Some && old(state).tip_balance(sender@, asset.info) + asset.amount > u128::MAX
            ==> err_is(r, ContractError::Overflow {}),
        r is Ok ==> forall|o: Seq<char>, info2: AssetInfo|
            (#[trigger] final(state).tip_balance(o, info2)) == old(state).tip_balance(o, info2)
                + if o == sender@ && asset.info.matches(info2) {
                asset.amount as int
            } else {
                0
            },
        final(state).config == old(state).config,
        final(state).orders == old(state).orders,
        final(state).dca_id == old(state).dca_id,
        final(state).user_configs == old(state).user_configs,
        r matches Ok(resp) ==> resp.messages@.len() == 0 && resp.event is None
            && resp.attributes@.len() == 2 && is_text_attr(
            resp.attributes@[0],
            "action"@,
            "add_bot_tip"@,
        ) && is_uint_attr(resp.attributes@[1], "tip_amount"@, asset.amount),
{
    let tip_amount = asset.amount;
    if tip_amount == 0 {
        return Err(ContractError::InvalidZeroAmount {});
    }
    if state.config.tip_fee_for(&asset.info).is_none() {
        return Err(ContractError::InvalidTipAssetInfo {});
    }
    let ghost s1 = *state;
    match state.find_jar(sender) {
        None => {
            proof {
                lemma_sum_no_entry(Seq::<Asset>::empty(), asset.info);
            }
            let mut tips: Vec<Asset> = Vec::new();
            let ghost asset_val = asset;
            tips.push(asset);
            let jar = TipJar { owner: sender.clone(), tips };
            let ghost jarv = jar;
            state.tip_jars.push(jar);
            proof {
                assert(jarv.tips@ =~= Seq::<Asset>::empty().push(asset_val));
                assert forall|o: Seq<char>, info2: AssetInfo|
                    (#[trigger] state.tip_balance(o, info2)) == s1.tip_balance(o, info2) + if o
                        == sender@ && asset_val.info.matches(info2) {
                        asset_val.amount as int
                    } else {
                        0
                    } by {
                    lemma_balance_after_jar_push(s1, *state, jarv);
                    lemma_sum_push(Seq::<Asset>::empty(), asset_val, info2);
                    lemma_sum_no_entry(Seq::<Asset>::empty(), info2);
                }
            }
        },
        Some(j) => {
            let ghost jar1 = state.tip_jars@[j as int];
            match find_tip_index(&state.tip_jars[j].tips, &asset.info) {
                Some(k) => {
                    let cur = state.tip_jars[j].tips[k].amount;
                    proof {
                        lemma_sum_unique_entry(jar1.tips@, k as int, asset.info);
                        assert(s1.tip_balance(sender@, asset.info) == cur as int);
                    }
                    if cur > u128::MAX - asset.amount {
                        return Err(ContractError::Overflow {});
                    }
                    state.tip_jars[j].tips[k].amount = cur + asset.amount;
                    proof {
                        let jar2 = state.tip_jars@[j as int];
                        assert(jar2.tips@ =~= jar1.tips@.update(
                            k as int,
                            Asset { info: jar1.tips@[k as int].info, amount: (cur + asset.amount) as u128 },
                        ));
                        lemma_balance_after_jar_update(s1, *state, j as int);
                        assert forall|o: Seq<char>, info2: AssetInfo|
                            (#[trigger] state.tip_balance(o, info2)) == s1.tip_balance(o, info2)
                                + if o == sender@ && asset.info.matches(info2) {
                                asset.amount as int
                            } else {
                                0
                            } by {
                            if o == sender@ {
                                lemma_sum_update(
                                    jar1.tips@,
                                    k as int,
                                    Asset {
                                        info: jar1.tips@[k as int].info,
                                        amount: (cur + asset.amount) as u128,
                                    },
                                    info2,
                                );
                                crate::asset::lemma_matches_equivalence(
                                    jar1.tips@[k as int].info,
                                    asset.info,
                                    info2,
                                );
                                crate::asset::lemma_matches_equivalence(
                                    asset.info,
                                    jar1.tips@[k as int].info,
                                    info2,
                                );
                            }
                        }
                    }
                },
                None => {
                    proof {
                        lemma_sum_no_entry(jar1.tips@, asset.info);
                        assert(s1.tip_balance(sender@, asset.info) == 0);
                    }
                    let ghost asset_val = asset;
                    state.tip_jars[j].tips.push(asset);
                    proof {
                        let jar2 = state.tip_jars@[j as int];
                        assert(jar2.tips@ =~= jar1.tips@.push(asset_val));
                        lemma_balance_after_jar_update(s1, *state, j as int);
                        assert forall|o: Seq<char>, info2: AssetInfo|
                            (#[trigger] state.tip_balance(o, info2)) == s1.tip_balance(o, info2)
                                + if o == sender@ && asset_val.info.matches(info2) {
                                asset_val.amount as int
                            } else {
                                0
                            } by {
                            if o == sender@ {
                                lemma_sum_push(jar1.tips@, asset_val, info2);
                            }
                        }
                        assert forall|k2: int, l2: int|
                            0 <= k2 < l2 < jar2.tips@.len() implies !(
                        #[trigger] jar2.tips@[k2].info).matches(
                            #[trigger] jar2.tips@[l2].info,
                        ) by {
                            if l2 == jar2.tips@.len() - 1 {
                                crate::asset::lemma_matches_equivalence(
                                    jar1.tips@[k2].info,
                                    asset_val.info,
                                    asset_val.info,
                                );
                            }
                        }
                    }
                },
            }
        },
    }
    let mut attrs: Vec<Attribute> = Vec::new();
    push_text_attr(&mut attrs, "action", "add_bot_tip");
    push_uint_attr(&mut attrs, "tip_amount", tip_amount);
    Ok(Response { messages: Vec::new(), attributes: attrs, event: None })
}


/// The matching amount attached as coins: what the credits of a call sum
/// to in a given asset.
pub open spec fn sum_coins_matching(funds: Seq<Coin>, info: AssetInfo) -> int
    decreases funds.len(),
{
    if funds.len() == 0 {
        0
    } else {
        (if (AssetInfo::NativeToken { denom: funds[0].denom }).matches(info) {
            funds[0].amount as int
        } else {
            0
        }) + sum_coins_matching(funds.drop_first(), info)
    }
}

/// Crediting the attached coins to a jar, one coin at a time: a zero coin
/// or one outside the tip whitelist fails, a coin of a held asset grows
/// that entry — failing on numeric overflow — and a coin of a new asset
/// appends an entry.
pub open spec fn spec_credit_walk(
    tips: Seq<Asset>,
    funds: Seq<Coin>,
    wl: Seq<TipAssetInfo>,
) -> Result<Seq<Asset>, ContractError>
    decreases funds.len(),
{
    if funds.len() == 0 {
        Ok(tips)
    } else {
        let a = Asset {
            info: AssetInfo::NativeToken { denom: funds[0].denom },
            amount: funds[0].amount,
        };
        if a.amount == 0 {
            Err(ContractError::InvalidZeroAmount {})
        } else if spec_tip_fee(wl, a.info) is None {
            Err(ContractError::InvalidTipAssetInfo {})
        } else {
            let k = crate::state::spec_find_tip(tips, a.info);
            if k < 0 {
                spec_credit_walk(tips.push(a), funds.drop_first(), wl)
            } else if tips[k].amount + a.amount > u128::MAX {
                Err(ContractError::Overflow {})
            } else {
                spec_credit_walk(
                    tips.update(
                        k,
                        Asset { info: tips[k].info, amount: (tips[k].amount + a.amount) as u128 },
                    ),
                    funds.drop_first(),
                    wl,
                )
            }
        }
    }
}

/// A completed credit walk grows each matching sum by exactly the matching
/// coins.
proof fn lemma_credit_walk_sum(tips: Seq<Asset>, funds: Seq<Coin>, wl: Seq<TipAssetInfo>, info: AssetInfo)
    requires
        spec_credit_walk(tips, funds, wl) is Ok,
    ensures
        crate::state::sum_matching(spec_credit_walk(tips, funds, wl)->Ok_0, info)
            == crate::state::sum_matching(tips, info) + sum_coins_matching(funds, info),
    decreases funds.len(),
{
    if funds.len() > 0 {
        let a = Asset {
            info: AssetInfo::NativeToken { denom: funds[0].denom },
            amount: funds[0].amount,
        };
        let k = crate::state::spec_find_tip(tips, a.info);
        if k < 0 {
            lemma_credit_walk_sum(tips.push(a), funds.drop_first(), wl, info);
            lemma_sum_push(tips, a, info);
        } else {
            crate::state::lemma_find_tip_in_range(tips, a.info);
            let entry = Asset { info: tips[k].info, amount: (tips[k].amount + a.amount) as u128 };
            lemma_credit_walk_sum(tips.update(k, entry), funds.drop_first(), wl, info);
            lemma_sum_update(tips, k, entry, info);
            crate::asset::lemma_matches_equivalence(tips[k].info, a.info, info);
            crate::asset::lemma_matches_equivalence(a.info, tips[k].info, info);
        }
    }
}

/// A completed credit walk keeps the jar well formed: entries stay
/// positive and one per asset.
proof fn lemma_credit_walk_wf(tips: Seq<Asset>, funds: Seq<Coin>, wl: Seq<TipAssetInfo>)
    requires
        spec_credit_walk(tips, funds, wl) is Ok,
        forall|k: int| 0 <= k < tips.len() ==> (#[trigger] tips[k].amount) > 0,
        forall|k: int, l: int|
            0 <= k < l < tips.len() ==> !(#[trigger] tips[k].info).matches(#[trigger] tips[l].info),
    ensures
        ({
            let out = spec_credit_walk(tips, funds, wl)->Ok_0;
            &&& forall|k: int| 0 <= k < out.len() ==> (#[trigger] out[k].amount) > 0
            &&& forall|k: int, l: int|
                0 <= k < l < out.len() ==> !(#[trigger] out[k].info).matches(
                    #[trigger] out[l].info,
                )
        }),
    decreases funds.len(),
{
    if funds.len() > 0 {
        let a = Asset {
            info: AssetInfo::NativeToken { denom: funds[0].denom },
            amount: funds[0].amount,
        };
        let k = crate::state::spec_find_tip(tips, a.info);
        if k < 0 {
            let mid = tips.push(a);
            assert forall|k2: int, l2: int|
                0 <= k2 < l2 < mid.len() implies !(#[trigger] mid[k2].info).matches(
                #[trigger] mid[l2].info,
            ) by {
                if l2 == mid.len() - 1 {
                    crate::state::lemma_find_tip_absent(tips, a.info);
                    crate::asset::lemma_matches_equivalence(mid[k2].info, a.info, a.info);
                }
            }
            lemma_credit_walk_wf(mid, funds.drop_first(), wl);
        } else {
            crate::state::lemma_find_tip_in_range(tips, a.info);
            let entry = Asset { info: tips[k].info, amount: (tips[k].amount + a.amount) as u128 };
            lemma_credit_walk_wf(tips.update(k, entry), funds.drop_first(), wl);
        }
    }
}

/// Credits every coin attached to the call to the sender's tip ledger.
///
/// A call without coins, with a zero coin, with a coin outside the tip
/// whitelist, or overflowing a balance fails and changes nothing.  On
/// success exactly the sender's balances grow by the attached amounts.
#[verifier::loop_isolation(false)]
pub fn add_tips(state: &mut State, info: &MessageInfo) -> (r: Result<Response, ContractError>)
    requires
        old(state).wf(),
    ensures
        final(state).wf(),
        r is Err ==> *final(state) == *old(state),
        final(state).config == old(state).config,
        final(state).orders == old(state).orders,
        final(state).dca_id == old(state).dca_id,
        final(state).user_configs == old(state).user_configs,
        info.funds@.len() == 0 ==> err_is(r, ContractError::InvalidZeroAmount {}),
        info.funds@.len() > 0 ==> ({
            let tips = if spec_has_jar(old(state).tip_jars@, info.sender@) {
                old(state).tip_jars@[spec_jar_index(old(state).tip_jars@, info.sender@)].tips@
            } else {
                Seq::<Asset>::empty()
            };
            match spec_credit_walk(tips, info.funds@, old(state).config.whitelisted_tip_tokens@) {
                Ok(out) => {
                    &&& r is Ok
                    &&& forall|o: Seq<char>, info2: AssetInfo|
                        (#[trigger] final(state).tip_balance(o, info2)) == old(state).tip_balance(
                            o,
                            info2,
                        ) + if o == info.sender@ {
                            sum_coins_matching(info.funds@, info2)
                        } else {
                            0
                        }
                    &&& (r matches Ok(resp) ==> resp.messages@.len() == 0 && resp.event is None
                        && resp.attributes@.len() == 1 && is_text_attr(
                        resp.attributes@[0],
                        "action"@,
                        "add_bot_tip"@,
                    ))
                },
                Err(e) => r == Err::<Response, ContractError>(e),
            }
        }),
{
    if info.funds.len() == 0 {
        return Err(ContractError::InvalidZeroAmount {});
    }
    let ghost s1 = *state;
    let jar_idx = state.find_jar(&info.sender);
    let mut tips: Vec<Asset> = Vec::new();
    let ghost tips0 = if spec_has_jar(s1.tip_jars@, info.sender@) {
        s1.tip_jars@[spec_jar_index(s1.tip_jars@, info.sender@)].tips@
    } else {
        Seq::<Asset>::empty()
    };
    if let Some(j) = jar_idx {
        let mut c: usize = 0;
        while c < state.tip_jars[j].tips.len()
            invariant
                jar_idx == Some(j),
                j < s1.tip_jars@.len(),
                *state == s1,
                spec_jar_index(s1.tip_jars@, info.sender@) == j,
                spec_has_jar(s1.tip_jars@, info.sender@),
                0 <= c <= tips0.len(),
                tips0 == s1.tip_jars@[j as int].tips@,
                tips@ == tips0.subrange(0, c as int),
            decreases tips0.len() - c,
        {
            tips.push(state.tip_jars[j].tips[c].duplicate());
            c = c + 1;
            proof {
                assert(tips@ =~= tips0.subrange(0, c as int));
            }
        }
    }
    proof {
        assert(tips@ =~= tips0);
        assert(info.funds@.subrange(0, info.funds@.len() as int) =~= info.funds@);
    }
    let ghost wl = s1.config.whitelisted_tip_tokens@;
    let mut i: usize = 0;
    while i < info.funds.len()
        invariant
            0 <= i <= info.funds@.len(),
            *state == s1,
            wl == s1.config.whitelisted_tip_tokens@,
            spec_credit_walk(tips0, info.funds@, wl) == spec_credit_walk(
                tips@,
                info.funds@.subrange(i as int, info.funds@.len() as int),
                wl,
            ),
        decreases info.funds@.len() - i,
    {
        let ghost suffix = info.funds@.subrange(i as int, info.funds@.len() as int);
        proof {
            assert(suffix.len() > 0);
            assert(suffix[0] == info.funds@[i as int]);
            assert(suffix.drop_first() =~= info.funds@.subrange(
                i as int + 1,
                info.funds@.len() as int,
            ));
        }
        let coin = &info.funds[i];
        if coin.amount == 0 {
            return Err(ContractError::InvalidZeroAmount {});
        }
        let asset = Asset {
            info: AssetInfo::NativeToken { denom: coin.denom.clone() },
            amount: coin.amount,
        };
        if state.config.tip_fee_for(&asset.info).is_none() {
            return Err(ContractError::InvalidTipAssetInfo {});
        }
        let ghost tips_before = tips@;
        match find_tip_index(&tips, &asset.info) {
            None => {
                proof {
                    crate::state::lemma_find_tip_none(tips@, asset.info);
                }
                tips.push(asset);
            },
            Some(k) => {
                proof {
                    crate::state::lemma_find_tip_first(tips@, asset.info, k as int);
                }
                let cur = tips[k].amount;
                if cur > u128::MAX - coin.amount {
                    return Err(ContractError::Overflow {});
                }
                tips[k].amount = cur + coin.amount;
                proof {
                    assert(tips@ =~= tips_before.update(
                        k as int,
                        Asset {
                            info: tips_before[k as int].info,
                            amount: (cur + coin.amount) as u128,
                        },
                    ));
                }
            },
        }
        i = i + 1;
    }
    proof {
        assert(info.funds@.subrange(info.funds@.len() as int, info.funds@.len() as int) =~= Seq::<
            Coin,
        >::empty());
        assert(spec_credit_walk(tips0, info.funds@, wl) == Ok::<Seq<Asset>, ContractError>(tips@));
        lemma_credit_walk_wf(tips0, info.funds@, wl);
    }
    let ghost walked = tips@;
    match jar_idx {
        Some(j) => {
            state.tip_jars[j].tips = tips;
            proof {
                lemma_balance_after_jar_update(s1, *state, j as int);
                assert forall|o: Seq<char>, info2: AssetInfo|
                    (#[trigger] state.tip_balance(o, info2)) == s1.tip_balance(o, info2) + if o
                        == info.sender@ {
                        sum_coins_matching(info.funds@, info2)
                    } else {
                        0
                    } by {
                    if o == info.sender@ {
                        lemma_credit_walk_sum(tips0, info.funds@, wl, info2);
                    }
                }
            }
        },
        None => {
            let jar = TipJar { owner: info.sender.clone(), tips };
            let ghost jarv = jar;
            state.tip_jars.push(jar);
            proof {
                lemma_balance_after_jar_push(s1, *state, jarv);
                assert forall|o: Seq<char>, info2: AssetInfo|
                    (#[trigger] state.tip_balance(o, info2)) == s1.tip_balance(o, info2) + if o
                        == info.sender@ {
                        sum_coins_matching(info.funds@, info2)
                    } else {
                        0
                    } by {
                    if o == info.sender@ {
                        lemma_credit_walk_sum(tips0, info.funds@, wl, info2);
                        lemma_sum_no_entry(Seq::<Asset>::empty(), info2);
                    }
                }
            }
        },
    }
    let mut attrs: Vec<Attribute> = Vec::new();
    push_text_attr(&mut attrs, "action", "add_bot_tip");
    Ok(Response { messages: Vec::new(), attributes: attrs, event: None })
}

} // verus!
