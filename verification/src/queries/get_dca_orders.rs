//! Paged listing of stored orders, ascending by id, with the shared
//! selection helper the other order listings use.  `start_after` is an
//! exclusive cursor on the order id; the page size defaults to ten entries
//! and is capped at thirty.

use vstd::prelude::*;

use crate::asset::AssetInfo;
use crate::dca::DcaInfo;
use crate::state::State;

verus! {

/// The default number of entries a listing returns.
pub const DEFAULT_LIMIT: u32 = 10;

/// The most entries a listing ever returns.
pub const MAX_LIMIT: u32 = 30;

/// Whether an order passes the listing filters.
pub open spec fn spec_order_selected(
    o: DcaInfo,
    user: Option<String>,
    asset: Option<AssetInfo>,
    start_after: Option<u64>,
) -> bool {
    &&& (user matches Some(u) ==> o.owner@ == u@)
    &&& (asset matches Some(a) ==> o.initial_asset.info.matches(a))
    &&& (start_after matches Some(s) ==> o.id > s)
}

/// The first `limit` orders, in stored order, that pass the filters.
pub open spec fn spec_selected_orders(
    orders: Seq<DcaInfo>,
    user: Option<String>,
    asset: Option<AssetInfo>,
    start_after: Option<u64>,
    limit: int,
) -> Seq<DcaInfo>
    decreases orders.len(),
{
    if orders.len() == 0 || limit <= 0 {
        Seq::<DcaInfo>::empty()
    } else if spec_order_selected(orders[0], user, asset, start_after) {
        seq![orders[0]] + spec_selected_orders(
            orders.drop_first(),
            user,
            asset,
            start_after,
            limit - 1,
        )
    } else {
        spec_selected_orders(orders.drop_first(), user, asset, start_after, limit)
    }
}

/// The page size actually applied: the given limit capped, or the default.
pub open spec fn spec_applied_limit(limit: Option<u32>) -> int {
    match limit {
        Some(l) => if l < MAX_LIMIT {
            l as int
        } else {
            MAX_LIMIT as int
        },
        None => DEFAULT_LIMIT as int,
    }
}

/// Collects, in stored order, the first `limit` orders passing the
/// filters.
#[verifier::loop_isolation(false)]
pub fn select_orders(
    orders: &Vec<DcaInfo>,
    user: &Option<String>,
    asset: &Option<AssetInfo>,
    start_after: Option<u64>,
    limit: u32,
) -> (r: Vec<DcaInfo>)
    ensures
        r@ == spec_selected_orders(orders@, *user, *asset, start_after, limit as int),
{
    let mut result: Vec<DcaInfo> = Vec::new();
    let mut i: usize = 0;
    proof {
        assert(orders@.subrange(0, orders@.len() as int) =~= orders@);
    }
    while i < orders.len() && result.len() < limit as usize
        invariant
            0 <= i <= orders@.len(),
            result@.len() <= limit as int,
            spec_selected_orders(orders@, *user, *asset, start_after, limit as int) == result@
                + spec_selected_orders(
                orders@.subrange(i as int, orders@.len() as int),
                *user,
                *asset,
                start_after,
                limit as int - result@.len(),
            ),
        decreases orders@.len() - i,
    {
        let ghost suffix = orders@.subrange(i as int, orders@.len() as int);
        proof {
            assert(suffix.len() > 0);
            assert(suffix[0] == orders@[i as int]);
            assert(suffix.drop_first() =~= orders@.subrange(i as int + 1, orders@.len() as int));
        }
        let o = &orders[i];
        let mut selected = true;
        if let Some(u) = user {
            if !(o.owner == *u) {
                selected = false;
            }
        }
        if let Some(a) = asset {
            if !o.initial_asset.info.equal(a) {
                selected = false;
            }
        }
        if let Some(s) = start_after {
            if o.id <= s {
                selected = false;
            }
        }
        if selected {
            let ghost result_before = result@;
            result.push(orders[i].duplicate());
            proof {
                assert(result@ =~= result_before.push(orders@[i as int]));
                assert(result@ + spec_selected_orders(
                    suffix.drop_first(),
                    *user,
                    *asset,
                    start_after,
                    limit as int - result@.len(),
                ) =~= result_before + (seq![orders@[i as int]] + spec_selected_orders(
                    suffix.drop_first(),
                    *user,
                    *asset,
                    start_after,
                    limit as int - result@.len(),
                )));
            }
        }
        i = i + 1;
    }
    proof {
        if i == orders@.len() {
            assert(orders@.subrange(i as int, orders@.len() as int) =~= Seq::<DcaInfo>::empty());
        } else {
            lemma_selected_limit_zero(
                orders@.subrange(i as int, orders@.len() as int),
                *user,
                *asset,
                start_after,
            );
        }
        assert(result@ + Seq::<DcaInfo>::empty() =~= result@);
    }
    result
}

/// With no room left in the page, nothing more is selected.
proof fn lemma_selected_limit_zero(
    orders: Seq<DcaInfo>,
    user: Option<String>,
    asset: Option<AssetInfo>,
    start_after: Option<u64>,
)
    ensures
        spec_selected_orders(orders, user, asset, start_after, 0) == Seq::<DcaInfo>::empty(),
{
}

/// Applies the default and the cap to a requested page size.
pub fn applied_limit(limit: Option<u32>) -> (r: u32)
    ensures
        r as int == spec_applied_limit(limit),
{
    match limit {
        Some(l) => if l < MAX_LIMIT {
            l
        } else {
            MAX_LIMIT
        },
        None => DEFAULT_LIMIT,
    }
}

/// Lists stored orders ascending by id, starting after the given id.
pub fn get_dca_orders(state: &State, start_after: Option<u64>, limit: Option<u32>) -> (r: Vec<
    DcaInfo,
>)
    ensures
        r@ == spec_selected_orders(
            state.orders@,
            None::<String>,
            None::<AssetInfo>,
            start_after,
            spec_applied_limit(limit),
        ),
{
    let l = applied_limit(limit);
    select_orders(&state.orders, &None, &None, start_after, l)
}

} // verus!
