//! Paying tip balances back out.  With a list of assets, each named amount
//! is debited from the sender's jar — failing if an asset has no entry or
//! the entry cannot cover it — and transferred back; entries that reach
//! zero are pruned.  Without a list, every held balance is paid out in full
//! and the jar is cleared.

use vstd::prelude::*;

use crate::asset::Asset;
use crate::asset::AssetInfo;
use crate::error::ContractError;
use crate::helpers::asset_transfer;
use crate::helpers::spec_asset_transfer;
use crate::msg::MessageInfo;
use crate::response::is_text_attr;
use crate::response::push_text_attr;
use crate::response::Attribute;
use crate::response::OutMsg;
use crate::response::Response;
use crate::state::find_tip_index;
use crate::state::lemma_balance_after_jar_update;
use crate::state::lemma_find_tip_first;
use crate::state::lemma_find_tip_in_range;
use crate::state::lemma_find_tip_none;
use crate::state::lemma_sum_front;
use crate::state::lemma_sum_update;
use crate::state::spec_find_tip;
use crate::state::spec_has_jar;
use crate::state::spec_jar_index;
use crate::state::sum_matching;
use crate::state::State;

verus! {

/// Debiting the requested assets from a jar, one request at a time: a
/// request without a matching entry fails naming the asset, one exceeding
/// the entry's remaining balance fails as insufficient, and otherwise the
/// entry shrinks by the requested amount.
pub open spec fn spec_withdraw_walk(tips: Seq<Asset>, reqs: Seq<Asset>) -> Result<
    Seq<Asset>,
    ContractError,
>
    decreases reqs.len(),
{
    if reqs.len() == 0 {
        Ok(tips)
    } else {
        let q = reqs[0];
        let k = spec_find_tip(tips, q.info);
        if k < 0 {
            Err(ContractError::NonExistentTipJar { token: q.info.spec_id_string() })
        } else if q.amount > tips[k].amount {
            Err(ContractError::InsufficientTipBalance {})
        } else {
            spec_withdraw_walk(
                tips.update(
                    k,
                    Asset { info: tips[k].info, amount: (tips[k].amount - q.amount) as u128 },
                ),
                reqs.drop_first(),
            )
        }
    }
}

/// A completed walk leaves the entries in place, each shrunk by what the
/// requests took from it.
proof fn lemma_walk_shape(tips: Seq<Asset>, reqs: Seq<Asset>)
    requires
        spec_withdraw_walk(tips, reqs) is Ok,
    ensures
        ({
            let out = spec_withdraw_walk(tips, reqs)->Ok_0;
            &&& out.len() == tips.len()
            &&& forall|k: int|
                0 <= k < tips.len() ==> (#[trigger] out[k].info) == tips[k].info && out[k].amount
                    <= tips[k].amount
        }),
    decreases reqs.len(),
{
    if reqs.len() > 0 {
        let q = reqs[0];
        let k = spec_find_tip(tips, q.info);
        lemma_find_tip_in_range(tips, q.info);
        let mid = tips.update(
            k,
            Asset { info: tips[k].info, amount: (tips[k].amount - q.amount) as u128 },
        );
        lemma_walk_shape(mid, reqs.drop_first());
    }
}

/// A completed walk shrinks each matching sum by exactly the matching
/// requests.
proof fn lemma_walk_sum(tips: Seq<Asset>, reqs: Seq<Asset>, info: AssetInfo)
    requires
        spec_withdraw_walk(tips, reqs) is Ok,
    ensures
        sum_matching(spec_withdraw_walk(tips, reqs)->Ok_0, info) == sum_matching(tips, info)
            - sum_matching(reqs, info),
    decreases reqs.len(),
{
    if reqs.len() == 0 {
        assert(reqs =~= Seq::<Asset>::empty());
    } else {
        let q = reqs[0];
        let k = spec_find_tip(tips, q.info);
        lemma_find_tip_in_range(tips, q.info);
        let entry = Asset { info: tips[k].info, amount: (tips[k].amount - q.amount) as u128 };
        let mid = tips.update(k, entry);
        lemma_walk_sum(mid, reqs.drop_first(), info);
        lemma_sum_update(tips, k, entry, info);
        lemma_sum_front(reqs, info);
        crate::asset::lemma_matches_equivalence(tips[k].info, q.info, info);
        crate::asset::lemma_matches_equivalence(q.info, tips[k].info, info);
    }
}

/// Withdraws tip balances of the sender: the listed amounts, or everything
/// when no list is given.
///
/// On success exactly the sender's balances shrink by what was withdrawn —
/// to zero for a withdraw-all — and one transfer message per withdrawn
/// asset goes out, in request order.  On failure nothing changes.
#[verifier::loop_isolation(false)]
pub fn withdraw(state: &mut State, info: &MessageInfo, assets: Option<Vec<Asset>>) -> (r: Result<
    Response,
    ContractError,
>)
    requires
        old(state).wf(),
    ensures
        final(state).wf(),
        r is Err ==> *final(state) == *old(state),
        final(state).config == old(state).config,
        final(state).orders == old(state).orders,
        final(state).dca_id == old(state).dca_id,
        final(state).user_configs == old(state).user_configs,
        !spec_has_jar(old(state).tip_jars@, info.sender@) ==> (r matches Err(e) && (e
            matches ContractError::NonExistentTipJar { token } && token@ == "*"@)),
        spec_has_jar(old(state).tip_jars@, info.sender@) ==> ({
            let tips = old(state).tip_jars@[spec_jar_index(
                old(state).tip_jars@,
                info.sender@,
            )].tips@;
            match assets {
                Some(reqs) => match spec_withdraw_walk(tips, reqs@) {
                    Ok(out) => {
                        &&& r is Ok
                        &&& forall|o: Seq<char>, info2: AssetInfo|
                            (#[trigger] final(state).tip_balance(o, info2)) == old(
                                state,
                            ).tip_balance(o, info2) - if o == info.sender@ {
                                sum_matching(reqs@, info2)
                            } else {
                                0
                            }
                        &&& (r matches Ok(resp) ==> resp.messages@.len() == reqs@.len() && (
                        forall|m: int|
                            0 <= m < reqs@.len() ==> (#[trigger] resp.messages@[m])
                                == spec_asset_transfer(
                                reqs@[m].info,
                                reqs@[m].amount,
                                info.sender,
                            )) && resp.event is None && resp.attributes@.len() == 1
                            && is_text_attr(resp.attributes@[0], "action"@, "withdraw"@))
                    },
                    Err(e) => r == Err::<Response, ContractError>(e),
                },
                None => {
                    &&& r is Ok
                    &&& forall|o: Seq<char>, info2: AssetInfo|
                        (#[trigger] final(state).tip_balance(o, info2)) == if o == info.sender@ {
                            0
                        } else {
                            old(state).tip_balance(o, info2)
                        }
                    &&& (r matches Ok(resp) ==> resp.messages@.len() == tips.len() && (forall|
                        m: int,
                    |
                        0 <= m < tips.len() ==> (#[trigger] resp.messages@[m])
                            == spec_asset_transfer(tips[m].info, tips[m].amount, info.sender))
                        && resp.event is None && resp.attributes@.len() == 1 && is_text_attr(
                        resp.attributes@[0],
                        "action"@,
                        "withdraw"@,
                    ))
                },
            }
        }),
{
    let j = match state.find_jar(&info.sender) {
        None => {
            return Err(ContractError::NonExistentTipJar { token: "*".to_owned() });
        },
        Some(j) => j,
    };
    let ghost s1 = *state;
    let ghost tips0 = state.tip_jars@[j as int].tips@;
    let mut messages: Vec<OutMsg> = Vec::new();
    match assets {
        Some(reqs) => {
            let mut tips: Vec<Asset> = Vec::new();
            let mut c: usize = 0;
            while c < state.tip_jars[j].tips.len()
                invariant
                    0 <= c <= tips0.len(),
                    tips@ == tips0.subrange(0, c as int),
                decreases tips0.len() - c,
            {
                tips.push(state.tip_jars[j].tips[c].duplicate());
                c = c + 1;
                proof {
                    assert(tips@ =~= tips0.subrange(0, c as int));
                }
            }
            proof {
                assert(tips@ =~= tips0);
                assert(reqs@.subrange(0, reqs@.len() as int) =~= reqs@);
            }
            let mut i: usize = 0;
            while i < reqs.len()
                invariant
                    0 <= i <= reqs@.len(),
                    tips@.len() == tips0.len(),
                    forall|k: int|
                        0 <= k < tips0.len() ==> (#[trigger] tips@[k].info) == tips0[k].info
                            && tips@[k].amount <= tips0[k].amount,
                    spec_withdraw_walk(tips0, reqs@) == spec_withdraw_walk(
                        tips@,
                        reqs@.subrange(i as int, reqs@.len() as int),
                    ),
                    messages@.len() == i,
                    forall|m: int|
                        0 <= m < i ==> (#[trigger] messages@[m]) == spec_asset_transfer(
                            reqs@[m].info,
                            reqs@[m].amount,
                            info.sender,
                        ),
                    *state == s1,
                decreases reqs@.len() - i,
            {
                let ghost suffix = reqs@.subrange(i as int, reqs@.len() as int);
                proof {
                    assert(suffix.len() > 0);
                    assert(suffix[0] == reqs@[i as int]);
                    assert(suffix.drop_first() =~= reqs@.subrange(
                        i as int + 1,
                        reqs@.len() as int,
                    ));
                }
                let q = &reqs[i];
                match find_tip_index(&tips, &q.info) {
                    None => {
                        proof {
                            lemma_find_tip_none(tips@, q.info);
                        }
                        return Err(
                            ContractError::NonExistentTipJar { token: q.info.id_string() },
                        );
                    },
                    Some(k) => {
                        proof {
                            lemma_find_tip_first(tips@, q.info, k as int);
                        }
                        if q.amount > tips[k].amount {
                            return Err(ContractError::InsufficientTipBalance {});
                        }
                        let ghost tips_before = tips@;
                        let new_amount = tips[k].amount - q.amount;
                        tips[k].amount = new_amount;
                        proof {
                            assert(tips@ =~= tips_before.update(
                                k as int,
                                Asset { info: tips_before[k as int].info, amount: new_amount },
                            ));
                        }
                        messages.push(asset_transfer(&q.info, q.amount, &info.sender));
                        i = i + 1;
                    },
                }
            }
            proof {
                assert(reqs@.subrange(reqs@.len() as int, reqs@.len() as int) =~= Seq::<
                    Asset,
                >::empty());
                assert(spec_withdraw_walk(tips0, reqs@) == Ok::<Seq<Asset>, ContractError>(tips@));
            }
            let ghost walked = tips@;
            proof {
                lemma_walk_shape(tips0, reqs@);
                assert forall|k1: int, k2: int|
                    0 <= k1 < k2 < walked.len() implies !(#[trigger] walked[k1].info).matches(
                    #[trigger] walked[k2].info,
                ) by {
                    assert(walked[k1].info == tips0[k1].info);
                    assert(walked[k2].info == tips0[k2].info);
                }
            }
            let mut pruned: Vec<Asset> = Vec::new();
            let mut p: usize = 0;
            while p < tips.len()
                invariant
                    0 <= p <= walked.len(),
                    tips@ == walked,
                    forall|info2: AssetInfo|
                        (#[trigger] sum_matching(pruned@, info2)) == sum_matching(
                            walked.subrange(0, p as int),
                            info2,
                        ),
                    forall|l: int| 0 <= l < pruned@.len() ==> (#[trigger] pruned@[l].amount) > 0,
                    forall|l: int|
                        0 <= l < pruned@.len() ==> exists|m2: int|
                            0 <= m2 < p && (#[trigger] pruned@[l].info) == walked[m2].info,
                    forall|l1: int, l2: int|
                        0 <= l1 < l2 < pruned@.len() ==> !(#[trigger] pruned@[l1].info).matches(
                            #[trigger] pruned@[l2].info,
                        ),
                    forall|k1: int, k2: int|
                        0 <= k1 < k2 < walked.len() ==> !(#[trigger] walked[k1].info).matches(
                            #[trigger] walked[k2].info,
                        ),
                decreases walked.len() - p,
            {
                let ghost pruned_before = pruned@;
                if tips[p].amount > 0 {
                    pruned.push(tips[p].duplicate());
                }
                p = p + 1;
                proof {
                    assert forall|info2: AssetInfo|
                        (#[trigger] sum_matching(pruned@, info2)) == sum_matching(
                            walked.subrange(0, p as int),
                            info2,
                        ) by {
                        let sub = walked.subrange(0, p as int);
                        assert(sub.drop_last() =~= walked.subrange(0, p as int - 1));
                        assert(sub.last() == walked[p as int - 1]);
                        if walked[p as int - 1].amount > 0 {
                            crate::state::lemma_sum_push(
                                pruned_before,
                                walked[p as int - 1],
                                info2,
                            );
                        }
                    }
                    assert forall|l1: int, l2: int|
                        0 <= l1 < l2 < pruned@.len() implies !(#[trigger] pruned@[l1].info).matches(
                        #[trigger] pruned@[l2].info,
                    ) by {
                        if l2 == pruned@.len() - 1 && pruned@.len() > pruned_before.len() {
                            let m2 = choose|m2: int|
                                0 <= m2 < p - 1 && (#[trigger] pruned@[l1].info) == walked[
                                m2].info;
                            assert(!walked[m2].info.matches(walked[p as int - 1].info));
                        }
                    }
                }
            }
            proof {
                assert(walked.subrange(0, walked.len() as int) =~= walked);
            }
            state.tip_jars[j].tips = pruned;
            proof {
                lemma_balance_after_jar_update(s1, *state, j as int);
                assert forall|o: Seq<char>, info2: AssetInfo|
                    (#[trigger] state.tip_balance(o, info2)) == s1.tip_balance(o, info2) - if o
                        == info.sender@ {
                        sum_matching(reqs@, info2)
                    } else {
                        0
                    } by {
                    if o == info.sender@ {
                        lemma_walk_sum(tips0, reqs@, info2);
                    }
                }
            }
            let mut attrs: Vec<Attribute> = Vec::new();
            push_text_attr(&mut attrs, "action", "withdraw");
            Ok(Response { messages, attributes: attrs, event: None })
        },
        None => {
            let mut m: usize = 0;
            while m < state.tip_jars[j].tips.len()
                invariant
                    0 <= m <= tips0.len(),
                    *state == s1,
                    messages@.len() == m,
                    forall|m2: int|
                        0 <= m2 < m ==> (#[trigger] messages@[m2]) == spec_asset_transfer(
                            tips0[m2].info,
                            tips0[m2].amount,
                            info.sender,
                        ),
                decreases tips0.len() - m,
            {
                let entry = &state.tip_jars[j].tips[m];
                messages.push(asset_transfer(&entry.info, entry.amount, &info.sender));
                m = m + 1;
            }
            state.tip_jars[j].tips.clear();
            proof {
                lemma_balance_after_jar_update(s1, *state, j as int);
            }
            let mut attrs: Vec<Attribute> = Vec::new();
            push_text_attr(&mut attrs, "action", "withdraw");
            Ok(Response { messages, attributes: attrs, event: None })
        },
    }
}

} // verus!
