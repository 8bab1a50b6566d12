//! A user's orders in one deposited asset, ascending by id, with spendable
//! amounts.

use vstd::prelude::*;

use crate::asset::AssetInfo;
use crate::msg::Externals;
use crate::msg::UserDcaInfo;
use crate::queries::get_dca_orders::applied_limit;
use crate::queries::get_dca_orders::select_orders;
use crate::queries::get_dca_orders::spec_applied_limit;
use crate::queries::get_dca_orders::spec_selected_orders;
use crate::queries::get_user_dca_orders::enrich_orders;
use crate::queries::get_user_dca_orders::spec_spendable;
use crate::state::State;

verus! {

/// Lists a user's orders whose deposit is the given asset, ascending by
/// id, with spendable amounts.
pub fn get_user_asset_dca_orders(
    state: &State,
    ext: &Externals,
    user: String,
    asset: AssetInfo,
    start_after: Option<u64>,
    limit: Option<u32>,
) -> (r: Vec<UserDcaInfo>)
    ensures
        ({
            let sel = spec_selected_orders(
                state.orders@,
                Some(user),
                Some(asset),
                start_after,
                spec_applied_limit(limit),
            );
            r@.len() == sel.len() && forall|m: int|
                0 <= m < sel.len() ==> (#[trigger] r@[m]) == (UserDcaInfo {
                    token_allowance: spec_spendable(sel[m], ext.allowances@),
                    info: sel[m],
                })
        }),
{
    let l = applied_limit(limit);
    let selected = select_orders(&state.orders, &Some(user), &Some(asset), start_after, l);
    enrich_orders(selected, ext)
}

} // verus!
