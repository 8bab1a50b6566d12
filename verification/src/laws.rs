//! The store-wide guarantees, written out once and proved from what the
//! operations' own contracts state.  Every mutating operation requires a
//! well-formed state and ensures one, so what `State::wf` carries — read
//! out here — holds after any sequence of operations that did not error.

use vstd::prelude::*;

use crate::asset::AssetInfo;
use crate::dca::DcaInfo;
use crate::queries::spec_order_selected;
use crate::queries::spec_selected_orders;
use crate::state::spec_has_order;
use crate::state::State;

verus! {

/// Every stored order keeps its balance divisible by its per-purchase
/// amount, and the per-purchase amount positive and covered — so a stored
/// order can always run a whole number of further purchases.
pub proof fn lemma_divisibility_invariant(s: State)
    requires
        s.wf(),
    ensures
        forall|i: int|
            0 <= i < s.orders@.len() ==> {
                let o = #[trigger] s.orders@[i];
                &&& 0 < o.dca_amount <= o.initial_asset.amount
                &&& o.initial_asset.amount as int % o.dca_amount as int == 0
                &&& !o.initial_asset.info.matches(o.target_asset)
            },
{
}

/// Stored ids strictly increase and never exceed the counter, so no two
/// stored orders share an id and the next assigned id — the counter plus
/// one, as creation's contract states — collides with none of them.
/// Creation is the only operation that moves the counter, and only
/// forward; an id freed by cancellation or exhaustion lies at or under the
/// counter and is therefore never handed out again.
pub proof fn lemma_ids_unique_and_fresh(s: State)
    requires
        s.wf(),
    ensures
        forall|i: int, j: int|
            0 <= i < j < s.orders@.len() ==> (#[trigger] s.orders@[i].id) < (
            #[trigger] s.orders@[j].id),
        forall|i: int| 0 <= i < s.orders@.len() ==> (#[trigger] s.orders@[i].id) <= s.dca_id,
        s.dca_id < u64::MAX ==> !spec_has_order(s.orders@, (s.dca_id + 1) as u64),
{
    if s.dca_id < u64::MAX && spec_has_order(s.orders@, (s.dca_id + 1) as u64) {
        let i = choose|i: int|
            0 <= i < s.orders@.len() && s.orders@[i].id == (s.dca_id + 1) as u64;
        assert(s.orders@[i].id <= s.dca_id);
    }
}

/// An id absent from the store shows up in no listing: the listings only
/// ever hand back stored orders.  Together with the purchase contract —
/// an order whose balance reaches zero is absent from the store in the
/// same commit — a finished order disappears from every view at once.
pub proof fn lemma_absent_order_not_listed(
    orders: Seq<DcaInfo>,
    user: Option<String>,
    asset: Option<AssetInfo>,
    start_after: Option<u64>,
    limit: int,
    id: u64,
)
    requires
        !spec_has_order(orders, id),
    ensures
        forall|k: int|
            0 <= k < spec_selected_orders(orders, user, asset, start_after, limit).len() ==> (
            #[trigger] spec_selected_orders(orders, user, asset, start_after, limit)[k]).id != id,
    decreases orders.len(),
{
    if orders.len() > 0 && limit > 0 {
        assert forall|m: int| 0 <= m < orders.drop_first().len() implies (
        #[trigger] orders.drop_first()[m].id) != id by {
            assert(orders.drop_first()[m] == orders[m + 1]);
        }
        lemma_absent_order_not_listed(orders.drop_first(), user, asset, start_after, limit, id);
        lemma_absent_order_not_listed(
            orders.drop_first(),
            user,
            asset,
            start_after,
            limit - 1,
            id,
        );
        if spec_order_selected(orders[0], user, asset, start_after) {
            let sel = spec_selected_orders(orders, user, asset, start_after, limit);
            let rest = spec_selected_orders(
                orders.drop_first(),
                user,
                asset,
                start_after,
                limit - 1,
            );
            assert forall|k: int| 0 <= k < sel.len() implies (#[trigger] sel[k]).id != id by {
                if k == 0 {
                    assert(sel[0] == orders[0]);
                } else {
                    assert(sel[k] == rest[k - 1]);
                }
            }
        }
    }
}

/// The summed values of a sequence of deltas.
pub open spec fn sum_ints(xs: Seq<int>) -> int
    decreases xs.len(),
{
    if xs.len() == 0 {
        0
    } else {
        sum_ints(xs.drop_last()) + xs.last()
    }
}

/// One step of a history, as the operations' contracts describe it: the
/// balance of one user in one asset moves by a credit and a debit.
pub open spec fn spec_tip_step(
    s1: State,
    s2: State,
    owner: Seq<char>,
    info: AssetInfo,
    credit: int,
    debit: int,
) -> bool {
    s2.tip_balance(owner, info) == s1.tip_balance(owner, info) + credit - debit
}

/// Conservation of the tip ledger: across any history of states whose
/// steps move a balance by known credits and debits — which is what the
/// credit, purchase and withdrawal contracts state — the stored balance
/// equals the starting balance plus all credits minus all debits.
pub proof fn lemma_tip_ledger_conservation(
    states: Seq<State>,
    credits: Seq<int>,
    debits: Seq<int>,
    owner: Seq<char>,
    info: AssetInfo,
)
    requires
        states.len() >= 1,
        credits.len() == states.len() - 1,
        debits.len() == states.len() - 1,
        forall|i: int|
            0 <= i < credits.len() ==> spec_tip_step(
                #[trigger] states[i],
                states[i + 1],
                owner,
                info,
                credits[i],
                debits[i],
            ),
    ensures
        states.last().tip_balance(owner, info) == states[0].tip_balance(owner, info) + sum_ints(
            credits,
        ) - sum_ints(debits),
    decreases states.len(),
{
    if states.len() > 1 {
        let n = states.len() as int;
        lemma_tip_ledger_conservation(
            states.drop_last(),
            credits.drop_last(),
            debits.drop_last(),
            owner,
            info,
        );
        assert(states.drop_last()[0] == states[0]);
        assert(states.drop_last().last() == states[n - 2]);
        assert(spec_tip_step(
            states[n - 2],
            states[n - 1],
            owner,
            info,
            credits[n - 2],
            debits[n - 2],
        ));
    }
}

} // verus!
