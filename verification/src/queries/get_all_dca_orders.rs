//! Listing of all stored orders with a direction choice: descending by id
//! unless asked for ascending.  Descending, the cursor bounds ids from
//! above; ascending, from below.

use vstd::prelude::*;

use crate::asset::AssetInfo;
use crate::dca::DcaInfo;
use crate::queries::get_dca_orders::select_orders;
use crate::queries::get_dca_orders::spec_selected_orders;
use crate::state::State;

verus! {

/// The default number of entries this listing returns.
pub const ALL_ORDERS_LIMIT: u32 = 50;

/// The last `limit` orders, walking the store backwards, whose ids lie
/// under the cursor.
pub open spec fn spec_selected_desc(
    orders: Seq<DcaInfo>,
    start_after: Option<u64>,
    limit: int,
) -> Seq<DcaInfo>
    decreases orders.len(),
{
    if orders.len() == 0 || limit <= 0 {
        Seq::<DcaInfo>::empty()
    } else if (start_after matches Some(s) ==> orders.last().id < s) {
        seq![orders.last()] + spec_selected_desc(orders.drop_last(), start_after, limit - 1)
    } else {
        spec_selected_desc(orders.drop_last(), start_after, limit)
    }
}

/// Lists stored orders, by descending id unless `is_ascending`.
#[verifier::loop_isolation(false)]
pub fn get_all_dca_orders(
    state: &State,
    start_after: Option<u64>,
    limit: Option<u32>,
    is_ascending: Option<bool>,
) -> (r: Vec<DcaInfo>)
    ensures
        ({
            let l = match limit {
                Some(l) => if l < ALL_ORDERS_LIMIT {
                    l as int
                } else {
                    ALL_ORDERS_LIMIT as int
                },
                None => ALL_ORDERS_LIMIT as int,
            };
            if is_ascending == Some(true) {
                r@ == spec_selected_orders(
                    state.orders@,
                    None::<String>,
                    None::<AssetInfo>,
                    start_after,
                    l,
                )
            } else {
                r@ == spec_selected_desc(state.orders@, start_after, l)
            }
        }),
{
    let l: u32 = match limit {
        Some(l) => if l < ALL_ORDERS_LIMIT {
            l
        } else {
            ALL_ORDERS_LIMIT
        },
        None => ALL_ORDERS_LIMIT,
    };
    let ascending = match is_ascending {
        Some(b) => b,
        None => false,
    };
    if ascending {
        return select_orders(&state.orders, &None, &None, start_after, l);
    }
    let mut result: Vec<DcaInfo> = Vec::new();
    let mut i: usize = state.orders.len();
    proof {
        assert(state.orders@.subrange(0, state.orders@.len() as int) =~= state.orders@);
    }
    while i > 0 && result.len() < l as usize
        invariant
            0 <= i <= state.orders@.len(),
            result@.len() <= l as int,
            spec_selected_desc(state.orders@, start_after, l as int) == result@
                + spec_selected_desc(
                state.orders@.subrange(0, i as int),
                start_after,
                l as int - result@.len(),
            ),
        decreases i,
    {
        let ghost prefix = state.orders@.subrange(0, i as int);
        proof {
            assert(prefix.len() > 0);
            assert(prefix.last() == state.orders@[i as int - 1]);
            assert(prefix.drop_last() =~= state.orders@.subrange(0, i as int - 1));
        }
        let o = &state.orders[i - 1];
        let mut selected = true;
        if let Some(s) = start_after {
            if o.id >= s {
                selected = false;
            }
        }
        if selected {
            let ghost result_before = result@;
            result.push(state.orders[i - 1].duplicate());
            proof {
                assert(result@ =~= result_before.push(state.orders@[i as int - 1]));
                assert(result@ + spec_selected_desc(
                    prefix.drop_last(),
                    start_after,
                    l as int - result@.len(),
                ) =~= result_before + (seq![state.orders@[i as int - 1]] + spec_selected_desc(
                    prefix.drop_last(),
                    start_after,
                    l as int - result@.len(),
                )));
            }
        }
        i = i - 1;
    }
    proof {
        if i == 0 {
            assert(state.orders@.subrange(0, 0) =~= Seq::<DcaInfo>::empty());
        }
        assert(result@ + Seq::<DcaInfo>::empty() =~= result@);
    }
    result
}

} // verus!
