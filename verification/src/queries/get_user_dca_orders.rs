//! A user's orders, ascending by id, each paired with what the user can
//! still actually spend on it: the remaining amount for a native deposit,
//! the currently granted allowance for a token deposit.

use vstd::prelude::*;

use crate::asset::AssetInfo;
use crate::dca::DcaInfo;
use crate::msg::spec_allowance;
use crate::msg::AllowanceEntry;
use crate::msg::Externals;
use crate::msg::UserDcaInfo;
use crate::queries::get_dca_orders::applied_limit;
use crate::queries::get_dca_orders::select_orders;
use crate::queries::get_dca_orders::spec_applied_limit;
use crate::queries::get_dca_orders::spec_selected_orders;
use crate::state::State;

verus! {

/// What the owner can still spend on an order: the remaining amount of a
/// native deposit, the reported allowance of a token deposit.
pub open spec fn spec_spendable(o: DcaInfo, allowances: Seq<AllowanceEntry>) -> u128 {
    match o.initial_asset.info {
        AssetInfo::NativeToken { .. } => o.initial_asset.amount,
        AssetInfo::Token { contract_addr } => spec_allowance(allowances, contract_addr@, o.owner@),
    }
}

/// Pairs each selected order with its spendable amount.
#[verifier::loop_isolation(false)]
pub fn enrich_orders(selected: Vec<DcaInfo>, ext: &Externals) -> (r: Vec<UserDcaInfo>)
    ensures
        r@.len() == selected@.len(),
        forall|m: int|
            0 <= m < selected@.len() ==> (#[trigger] r@[m]) == (UserDcaInfo {
                token_allowance: spec_spendable(selected@[m], ext.allowances@),
                info: selected@[m],
            }),
{
    let mut result: Vec<UserDcaInfo> = Vec::new();
    let mut i: usize = 0;
    while i < selected.len()
        invariant
            0 <= i <= selected@.len(),
            result@.len() == i,
            forall|m: int|
                0 <= m < i ==> (#[trigger] result@[m]) == (UserDcaInfo {
                    token_allowance: spec_spendable(selected@[m], ext.allowances@),
                    info: selected@[m],
                }),
        decreases selected@.len() - i,
    {
        let o = selected[i].duplicate();
        let token_allowance = match &o.initial_asset.info {
            AssetInfo::NativeToken { .. } => o.initial_asset.amount,
            AssetInfo::Token { contract_addr } => ext.allowance_of(contract_addr, &o.owner),
        };
        result.push(UserDcaInfo { token_allowance, info: o });
        i = i + 1;
    }
    result
}

/// Lists a user's orders ascending by id, with spendable amounts.
pub fn get_user_dca_orders(
    state: &State,
    ext: &Externals,
    user: String,
    start_after: Option<u64>,
    limit: Option<u32>,
) -> (r: Vec<UserDcaInfo>)
    ensures
        ({
            let sel = spec_selected_orders(
                state.orders@,
                Some(user),
                None::<AssetInfo>,
                start_after,
                spec_applied_limit(limit),
            );
            r@.len() == sel.len() && forall|m: int|
                0 <= m < sel.len() ==> (#[trigger] r@[m]) == (UserDcaInfo {
                    token_allowance: spec_spendable(sel[m], ext.allowances@),
                    info: sel[m],
                })
        }),
{
    let l = applied_limit(limit);
    let selected = select_orders(&state.orders, &Some(user), &None, start_after, l);
    enrich_orders(selected, ext)
}

} // verus!
