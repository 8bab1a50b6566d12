//! The contract's stored state as one value: configuration, the order store
//! with its monotonic id counter, the per-user tip ledger, and per-user
//! override settings.  Each operation runs against a snapshot of this value
//! and either commits all its changes or none.

use vstd::prelude::*;

use crate::asset::Asset;
use crate::asset::AssetInfo;
use crate::dca::DcaInfo;
use crate::dca::TipAssetInfo;
use crate::user_config::UserConfig;

verus! {

/// Contract-wide settings, mutated only by the factory owner.
#[derive(Clone, Debug, PartialEq, Eq)]
pub struct Config {
    /// Default cap on the number of route hops.
    pub max_hops: u32,
    /// Default cap on the swap spread, as a fraction with eighteen decimal
    /// places.
    pub max_spread: u128,
    /// Assets allowed as intermediate route hops.
    pub whitelisted_tokens: Vec<AssetInfo>,
    /// Assets allowed as tips, each with its per-hop fee.
    pub whitelisted_tip_tokens: Vec<TipAssetInfo>,
    /// The factory contract, whose owner administers this contract.
    pub factory_addr: String,
    /// The router contract that executes swaps.
    pub router_addr: String,
}

/// One user's tip ledger: the balances set aside to pay bots.
#[derive(Clone, Debug, PartialEq, Eq)]
pub struct TipJar {
    pub owner: String,
    pub tips: Vec<Asset>,
}

/// One user's stored override settings.
#[derive(Clone, Debug, PartialEq, Eq)]
pub struct UserConfigEntry {
    pub owner: String,
    pub config: UserConfig,
}

/// The whole persisted state of the contract.
#[derive(Clone, Debug, PartialEq, Eq)]
pub struct State {
    pub config: Config,
    /// The last order id handed out; ids start at one.
    pub dca_id: u64,
    /// The stored orders, in increasing id order.
    pub orders: Vec<DcaInfo>,
    /// The tip ledger, one entry per user that ever funded one.
    pub tip_jars: Vec<TipJar>,
    /// Stored per-user overrides.
    pub user_configs: Vec<UserConfigEntry>,
}

/// True when some whitelist entry matches the asset.
pub open spec fn spec_is_whitelisted(tokens: Seq<AssetInfo>, info: AssetInfo) -> bool {
    exists|i: int| 0 <= i < tokens.len() && tokens[i].matches(info)
}

/// The per-hop fee of the first tip-whitelist entry matching the asset.
pub open spec fn spec_tip_fee(wl: Seq<TipAssetInfo>, info: AssetInfo) -> Option<u128>
    decreases wl.len(),
{
    if wl.len() == 0 {
        None
    } else if wl[0].info.matches(info) {
        Some(wl[0].per_hop_fee)
    } else {
        spec_tip_fee(wl.drop_first(), info)
    }
}

/// The summed amount of the jar entries matching the asset.  Jars keep one
/// entry per asset, so this is the balance held in that asset.
pub open spec fn sum_matching(tips: Seq<Asset>, info: AssetInfo) -> int
    decreases tips.len(),
{
    if tips.len() == 0 {
        0
    } else {
        sum_matching(tips.drop_last(), info) + if tips.last().info.matches(info) {
            tips.last().amount as int
        } else {
            0
        }
    }
}

impl Config {
    pub fn duplicate(&self) -> (r: Config)
        ensures
            r.max_hops == self.max_hops,
            r.max_spread == self.max_spread,
            r.whitelisted_tokens@ == self.whitelisted_tokens@,
            r.whitelisted_tip_tokens@ == self.whitelisted_tip_tokens@,
            r.factory_addr == self.factory_addr,
            r.router_addr == self.router_addr,
    {
        let mut whitelisted_tokens: Vec<AssetInfo> = Vec::new();
        let mut i: usize = 0;
        while i < self.whitelisted_tokens.len()
            invariant
                0 <= i <= self.whitelisted_tokens@.len(),
                whitelisted_tokens@ == self.whitelisted_tokens@.subrange(0, i as int),
            decreases self.whitelisted_tokens@.len() - i,
        {
            whitelisted_tokens.push(self.whitelisted_tokens[i].duplicate());
            i = i + 1;
            proof {
                assert(whitelisted_tokens@ =~= self.whitelisted_tokens@.subrange(0, i as int));
            }
        }
        let mut whitelisted_tip_tokens: Vec<TipAssetInfo> = Vec::new();
        let mut j: usize = 0;
        while j < self.whitelisted_tip_tokens.len()
            invariant
                0 <= j <= self.whitelisted_tip_tokens@.len(),
                whitelisted_tip_tokens@ == self.whitelisted_tip_tokens@.subrange(0, j as int),
            decreases self.whitelisted_tip_tokens@.len() - j,
        {
            whitelisted_tip_tokens.push(self.whitelisted_tip_tokens[j].duplicate());
            j = j + 1;
            proof {
                assert(whitelisted_tip_tokens@ =~= self.whitelisted_tip_tokens@.subrange(
                    0,
                    j as int,
                ));
            }
        }
        Config {
            max_hops: self.max_hops,
            max_spread: self.max_spread,
            whitelisted_tokens,
            whitelisted_tip_tokens,
            factory_addr: self.factory_addr.clone(),
            router_addr: self.router_addr.clone(),
        }
    }

    /// Whether the asset may stand as an intermediate hop of a route.
    pub fn is_whitelisted_asset(&self, info: &AssetInfo) -> (r: bool)
        ensures
            r == spec_is_whitelisted(self.whitelisted_tokens@, *info),
    {
        let mut i: usize = 0;
        while i < self.whitelisted_tokens.len()
            invariant
                0 <= i <= self.whitelisted_tokens@.len(),
                forall|j: int|
                    0 <= j < i ==> !self.whitelisted_tokens@[j].matches(*info),
            decreases self.whitelisted_tokens@.len() - i,
        {
            if self.whitelisted_tokens[i].equal(info) {
                return true;
            }
            i = i + 1;
        }
        false
    }

    /// The per-hop fee of the first matching tip-whitelist entry, if any.
    pub fn tip_fee_for(&self, info: &AssetInfo) -> (r: Option<u128>)
        ensures
            r == spec_tip_fee(self.whitelisted_tip_tokens@, *info),
    {
        proof {
            assert(self.whitelisted_tip_tokens@.subrange(
                0,
                self.whitelisted_tip_tokens@.len() as int,
            ) =~= self.whitelisted_tip_tokens@);
        }
        let mut i: usize = 0;
        while i < self.whitelisted_tip_tokens.len()
            invariant
                0 <= i <= self.whitelisted_tip_tokens@.len(),
                spec_tip_fee(self.whitelisted_tip_tokens@, *info) == spec_tip_fee(
                    self.whitelisted_tip_tokens@.subrange(
                        i as int,
                        self.whitelisted_tip_tokens@.len() as int,
                    ),
                    *info,
                ),
            decreases self.whitelisted_tip_tokens@.len() - i,
        {
            let ghost suffix = self.whitelisted_tip_tokens@.subrange(
                i as int,
                self.whitelisted_tip_tokens@.len() as int,
            );
            proof {
                assert(suffix.len() > 0);
                assert(suffix[0] == self.whitelisted_tip_tokens@[i as int]);
                assert(suffix.drop_first() =~= self.whitelisted_tip_tokens@.subrange(
                    i as int + 1,
                    self.whitelisted_tip_tokens@.len() as int,
                ));
            }
            if self.whitelisted_tip_tokens[i].info.equal(info) {
                proof {
                    assert(spec_tip_fee(suffix, *info) == Some(
                        self.whitelisted_tip_tokens@[i as int].per_hop_fee,
                    ));
                }
                return Some(self.whitelisted_tip_tokens[i].per_hop_fee);
            }
            proof {
                assert(spec_tip_fee(suffix, *info) == spec_tip_fee(suffix.drop_first(), *info));
            }
            i = i + 1;
        }
        None
    }
}

/// Ids strictly increase along the order store.
pub open spec fn ids_increasing(orders: Seq<DcaInfo>) -> bool {
    forall|i: int, j: int|
        0 <= i < j < orders.len() ==> (#[trigger] orders[i].id) < (#[trigger] orders[j].id)
}

/// Removing an order keeps ids strictly increasing and leaves no order
/// under the removed id.
pub proof fn lemma_ids_remove(orders: Seq<DcaInfo>, i: int)
    requires
        ids_increasing(orders),
        0 <= i < orders.len(),
    ensures
        ids_increasing(orders.remove(i)),
        !spec_has_order(orders.remove(i), orders[i].id),
        forall|k: int|
            0 <= k < orders.remove(i).len() ==> (#[trigger] orders.remove(i)[k]) == if k < i {
                orders[k]
            } else {
                orders[k + 1]
            },
{
    let r = orders.remove(i);
    assert forall|k: int, l: int| 0 <= k < l < r.len() implies (#[trigger] r[k].id) < (
    #[trigger] r[l].id) by {
        let k0 = if k < i { k } else { k + 1 };
        let l0 = if l < i { l } else { l + 1 };
        assert(orders[k0].id < orders[l0].id);
    }
    if spec_has_order(r, orders[i].id) {
        let k = choose|k: int| 0 <= k < r.len() && r[k].id == orders[i].id;
        let k0 = if k < i { k } else { k + 1 };
        if k0 < i {
            assert(orders[k0].id < orders[i].id);
        } else {
            assert(orders[i].id < orders[k0].id);
        }
    }
}

/// Replacing an order by one with the same id keeps ids strictly
/// increasing.
pub proof fn lemma_ids_update(orders: Seq<DcaInfo>, i: int, o: DcaInfo)
    requires
        ids_increasing(orders),
        0 <= i < orders.len(),
        o.id == orders[i].id,
    ensures
        ids_increasing(orders.update(i, o)),
{
}

/// True when an order with this id is stored.
pub open spec fn spec_has_order(orders: Seq<DcaInfo>, id: u64) -> bool {
    exists|i: int| 0 <= i < orders.len() && orders[i].id == id
}

/// The index of the stored order with this id; meaningful under
/// `spec_has_order` and the id-uniqueness invariant.
pub open spec fn spec_order_index(orders: Seq<DcaInfo>, id: u64) -> int {
    choose|i: int| 0 <= i < orders.len() && orders[i].id == id
}

/// The stored override settings of a user, or the defaults where the user
/// never stored any.
pub open spec fn spec_user_config(s: State, owner: Seq<char>) -> UserConfig {
    if exists|i: int| 0 <= i < s.user_configs@.len() && (#[trigger] s.user_configs@[i].owner@)
        == owner {
        s.user_configs@[choose|i: int|
            0 <= i < s.user_configs@.len() && (#[trigger] s.user_configs@[i].owner@)
                == owner].config
    } else {
        UserConfig { max_hops: None, max_spread: None }
    }
}

/// True when the user has a tip ledger entry (possibly with no balances).
pub open spec fn spec_has_jar(jars: Seq<TipJar>, owner: Seq<char>) -> bool {
    exists|i: int| 0 <= i < jars.len() && jars[i].owner@ == owner
}

/// The index of the user's tip ledger entry; meaningful under
/// `spec_has_jar` and the owner-uniqueness invariant.
pub open spec fn spec_jar_index(jars: Seq<TipJar>, owner: Seq<char>) -> int {
    choose|i: int| 0 <= i < jars.len() && jars[i].owner@ == owner
}

/// A stored order is internally consistent: the per-purchase amount is
/// positive, covered by the remaining balance, divides it exactly, and the
/// order never swaps an asset into itself.
pub open spec fn wf_order(o: DcaInfo) -> bool {
    &&& 0 < o.dca_amount <= o.initial_asset.amount
    &&& o.initial_asset.amount as int % o.dca_amount as int == 0
    &&& !o.initial_asset.info.matches(o.target_asset)
    &&& 1 <= o.id
}

/// A tip jar holds positive balances, one entry per asset.
pub open spec fn wf_jar(jar: TipJar) -> bool {
    &&& forall|k: int| 0 <= k < jar.tips@.len() ==> #[trigger] jar.tips@[k].amount > 0
    &&& forall|k: int, l: int|
        0 <= k < l < jar.tips@.len() ==> !(#[trigger] jar.tips@[k].info).matches(
            #[trigger] jar.tips@[l].info,
        )
}

impl State {
    /// The store invariant: orders are well formed and sorted by strictly
    /// increasing ids, no id exceeds the counter, tip jars and user
    /// configurations hold one entry per user.
    pub open spec fn wf(self) -> bool {
        &&& forall|i: int| 0 <= i < self.orders@.len() ==> wf_order(#[trigger] self.orders@[i])
        &&& forall|i: int|
            0 <= i < self.orders@.len() ==> (#[trigger] self.orders@[i].id) <= self.dca_id
        &&& ids_increasing(self.orders@)
        &&& forall|i: int| 0 <= i < self.tip_jars@.len() ==> wf_jar(#[trigger] self.tip_jars@[i])
        &&& forall|i: int, j: int|
            0 <= i < j < self.tip_jars@.len() ==> (#[trigger] self.tip_jars@[i].owner@) != (
            #[trigger] self.tip_jars@[j].owner@)
        &&& forall|i: int, j: int|
            0 <= i < j < self.user_configs@.len() ==> (#[trigger] self.user_configs@[i].owner@) != (
            #[trigger] self.user_configs@[j].owner@)
    }

    /// The balance the user holds in the given tip asset.
    pub open spec fn tip_balance(self, owner: Seq<char>, info: AssetInfo) -> int {
        if spec_has_jar(self.tip_jars@, owner) {
            sum_matching(self.tip_jars@[spec_jar_index(self.tip_jars@, owner)].tips@, info)
        } else {
            0
        }
    }

    /// Finds the position of the order with the given id.
    pub fn find_order(&self, id: u64) -> (r: Option<usize>)
        requires
            self.wf(),
        ensures
            match r {
                Some(i) => i < self.orders@.len() && self.orders@[i as int].id == id
                    && spec_has_order(self.orders@, id) && spec_order_index(self.orders@, id) == i,
                None => !spec_has_order(self.orders@, id),
            },
    {
        let mut i: usize = 0;
        while i < self.orders.len()
            invariant
                self.wf(),
                0 <= i <= self.orders@.len(),
                forall|j: int| 0 <= j < i ==> (#[trigger] self.orders@[j].id) != id,
            decreases self.orders@.len() - i,
        {
            if self.orders[i].id == id {
                proof {
                    assert(spec_has_order(self.orders@, id));
                    let w = spec_order_index(self.orders@, id);
                    assert(0 <= w < self.orders@.len() && self.orders@[w].id == id);
                    if w < i as int {
                        assert(false);
                    } else if w > i as int {
                        assert(self.orders@[i as int].id < self.orders@[w].id);
                        assert(false);
                    }
                }
                return Some(i);
            }
            i = i + 1;
        }
        None
    }

    /// Finds the position of the user's tip ledger entry.
    pub fn find_jar(&self, owner: &String) -> (r: Option<usize>)
        requires
            self.wf(),
        ensures
            match r {
                Some(i) => i < self.tip_jars@.len() && self.tip_jars@[i as int].owner@ == owner@
                    && spec_has_jar(self.tip_jars@, owner@) && spec_jar_index(
                    self.tip_jars@,
                    owner@,
                ) == i,
                None => !spec_has_jar(self.tip_jars@, owner@),
            },
    {
        let mut i: usize = 0;
        while i < self.tip_jars.len()
            invariant
                self.wf(),
                0 <= i <= self.tip_jars@.len(),
                forall|j: int| 0 <= j < i ==> (#[trigger] self.tip_jars@[j].owner@) != owner@,
            decreases self.tip_jars@.len() - i,
        {
            if self.tip_jars[i].owner == *owner {
                proof {
                    assert(spec_has_jar(self.tip_jars@, owner@));
                    let w = spec_jar_index(self.tip_jars@, owner@);
                    assert(0 <= w < self.tip_jars@.len() && self.tip_jars@[w].owner@ == owner@);
                    if w < i as int {
                        assert(false);
                    } else if w > i as int {
                        assert(self.tip_jars@[i as int].owner@ != self.tip_jars@[w].owner@);
                        assert(false);
                    }
                }
                return Some(i);
            }
            i = i + 1;
        }
        None
    }

    /// The stored override settings of the user, or the defaults.
    pub fn user_config_of(&self, owner: &String) -> (r: UserConfig)
        requires
            self.wf(),
        ensures
            r == spec_user_config(*self, owner@),
    {
        let mut i: usize = 0;
        while i < self.user_configs.len()
            invariant
                self.wf(),
                0 <= i <= self.user_configs@.len(),
                forall|j: int| 0 <= j < i ==> (#[trigger] self.user_configs@[j].owner@) != owner@,
            decreases self.user_configs@.len() - i,
        {
            if self.user_configs[i].owner == *owner {
                proof {
                    let w = choose|w: int|
                        0 <= w < self.user_configs@.len() && (#[trigger] self.user_configs@[
                        w].owner@) == owner@;
                    assert(0 <= w < self.user_configs@.len() && self.user_configs@[w].owner@
                        == owner@);
                    if w < i as int {
                        assert(false);
                    } else if w > i as int {
                        assert(self.user_configs@[i as int].owner@ != self.user_configs@[w].owner@);
                        assert(false);
                    }
                }
                let c = &self.user_configs[i].config;
                return UserConfig { max_hops: c.max_hops, max_spread: c.max_spread };
            }
            i = i + 1;
        }
        UserConfig { max_hops: None, max_spread: None }
    }
}

/// Finds the position of the first jar entry matching the asset.
pub fn find_tip_index(tips: &Vec<Asset>, info: &AssetInfo) -> (r: Option<usize>)
    ensures
        match r {
            Some(i) => i < tips@.len() && tips@[i as int].info.matches(*info) && forall|j: int|
                0 <= j < i ==> !(#[trigger] tips@[j].info).matches(*info),
            None => forall|j: int| 0 <= j < tips@.len() ==> !(#[trigger] tips@[j].info).matches(*info),
        },
{
    let mut i: usize = 0;
    while i < tips.len()
        invariant
            0 <= i <= tips@.len(),
            forall|j: int| 0 <= j < i ==> !(#[trigger] tips@[j].info).matches(*info),
        decreases tips@.len() - i,
    {
        if tips[i].info.equal(info) {
            return Some(i);
        }
        i = i + 1;
    }
    None
}

/// Appending an entry adds its amount to matching sums and nothing to others.
pub proof fn lemma_sum_push(tips: Seq<Asset>, a: Asset, info: AssetInfo)
    ensures
        sum_matching(tips.push(a), info) == sum_matching(tips, info) + if a.info.matches(info) {
            a.amount as int
        } else {
            0
        },
{
    assert(tips.push(a).drop_last() =~= tips);
}

/// Replacing the entry at one position shifts matching sums by the
/// difference of the old and new contributions.
pub proof fn lemma_sum_update(tips: Seq<Asset>, i: int, a: Asset, info: AssetInfo)
    requires
        0 <= i < tips.len(),
    ensures
        sum_matching(tips.update(i, a), info) == sum_matching(tips, info) - (if tips[i].info.matches(
            info,
        ) {
            tips[i].amount as int
        } else {
            0
        }) + (if a.info.matches(info) {
            a.amount as int
        } else {
            0
        }),
    decreases tips.len(),
{
    if i == tips.len() - 1 {
        assert(tips.update(i, a).drop_last() =~= tips.drop_last());
        assert(tips.update(i, a).last() == a);
    } else {
        assert(tips.update(i, a).drop_last() =~= tips.drop_last().update(i, a));
        assert(tips.update(i, a).last() == tips.last());
        lemma_sum_update(tips.drop_last(), i, a, info);
    }
}

/// Removing the entry at one position subtracts its contribution.
pub proof fn lemma_sum_remove(tips: Seq<Asset>, i: int, info: AssetInfo)
    requires
        0 <= i < tips.len(),
    ensures
        sum_matching(tips.remove(i), info) == sum_matching(tips, info) - if tips[i].info.matches(
            info,
        ) {
            tips[i].amount as int
        } else {
            0
        },
    decreases tips.len(),
{
    if i == tips.len() - 1 {
        assert(tips.remove(i) =~= tips.drop_last());
    } else {
        assert(tips.remove(i).drop_last() =~= tips.drop_last().remove(i));
        assert(tips.remove(i).last() == tips.last());
        lemma_sum_remove(tips.drop_last(), i, info);
    }
}

/// In a well-formed jar the sum in an asset is the amount of the single
/// entry holding that asset, and zero without such an entry.
pub proof fn lemma_sum_unique_entry(tips: Seq<Asset>, i: int, info: AssetInfo)
    requires
        0 <= i < tips.len(),
        tips[i].info.matches(info),
        forall|k: int, l: int|
            0 <= k < l < tips.len() ==> !(#[trigger] tips[k].info).matches(#[trigger] tips[l].info),
    ensures
        sum_matching(tips, info) == tips[i].amount as int,
    decreases tips.len(),
{
    crate::asset::lemma_matches_equivalence(tips[i].info, info, info);
    if i == tips.len() - 1 {
        lemma_sum_no_entry(tips.drop_last(), info);
    } else {
        assert(!tips[i].info.matches(tips[tips.len() - 1].info));
        assert(!tips.last().info.matches(info)) by {
            crate::asset::lemma_matches_equivalence(tips[i].info, tips.last().info, info);
            crate::asset::lemma_matches_equivalence(tips.last().info, tips[i].info, info);
        }
        lemma_sum_unique_entry(tips.drop_last(), i, info);
    }
}

/// With one ledger entry per user, the entry found for a user is the one
/// the balance is read from.
pub proof fn lemma_jar_index_is(jars: Seq<TipJar>, owner: Seq<char>, i: int)
    requires
        forall|k: int, l: int|
            0 <= k < l < jars.len() ==> (#[trigger] jars[k].owner@) != (#[trigger] jars[l].owner@),
        0 <= i < jars.len(),
        jars[i].owner@ == owner,
    ensures
        spec_has_jar(jars, owner),
        spec_jar_index(jars, owner) == i,
{
    assert(spec_has_jar(jars, owner));
    let w = spec_jar_index(jars, owner);
    assert(0 <= w < jars.len() && jars[w].owner@ == owner);
    if w < i {
        assert(jars[w].owner@ != jars[i].owner@);
    } else if w > i {
        assert(jars[i].owner@ != jars[w].owner@);
    }
}

/// Replacing the balances of one user's ledger entry leaves every other
/// user's balances unchanged.
pub proof fn lemma_balance_after_jar_update(s1: State, s2: State, j: int)
    requires
        s1.wf(),
        0 <= j < s1.tip_jars@.len(),
        s2.tip_jars@.len() == s1.tip_jars@.len(),
        forall|k: int| 0 <= k < s1.tip_jars@.len() && k != j ==> s2.tip_jars@[k] == (
        #[trigger] s1.tip_jars@[k]),
        s2.tip_jars@[j].owner@ == s1.tip_jars@[j].owner@,
    ensures
        forall|o: Seq<char>, info: AssetInfo|
            (#[trigger] s2.tip_balance(o, info)) == if o == s1.tip_jars@[j].owner@ {
                sum_matching(s2.tip_jars@[j].tips@, info)
            } else {
                s1.tip_balance(o, info)
            },
        forall|info: AssetInfo|
            (#[trigger] s1.tip_balance(s1.tip_jars@[j].owner@, info)) == sum_matching(
                s1.tip_jars@[j].tips@,
                info,
            ),
{
    let owner_j = s1.tip_jars@[j].owner@;
    assert forall|k: int, l: int|
        0 <= k < l < s2.tip_jars@.len() implies (#[trigger] s2.tip_jars@[k].owner@) != (
    #[trigger] s2.tip_jars@[l].owner@) by {
        assert(s1.tip_jars@[k].owner@ != s1.tip_jars@[l].owner@);
    }
    lemma_jar_index_is(s1.tip_jars@, owner_j, j);
    lemma_jar_index_is(s2.tip_jars@, owner_j, j);
    assert forall|o: Seq<char>, info: AssetInfo| o != owner_j implies (#[trigger] s2.tip_balance(
        o,
        info,
    )) == s1.tip_balance(o, info) by {
        if spec_has_jar(s1.tip_jars@, o) {
            let i = spec_jar_index(s1.tip_jars@, o);
            assert(0 <= i < s1.tip_jars@.len() && s1.tip_jars@[i].owner@ == o);
            assert(i != j);
            lemma_jar_index_is(s2.tip_jars@, o, i);
        } else {
            if spec_has_jar(s2.tip_jars@, o) {
                let i = spec_jar_index(s2.tip_jars@, o);
                assert(0 <= i < s2.tip_jars@.len() && s2.tip_jars@[i].owner@ == o);
                assert(i != j);
                assert(s1.tip_jars@[i].owner@ == o);
                assert(false);
            }
        }
    }
}

/// Appending a ledger entry for a user who had none gives that user the
/// entry's balances and leaves every other user's balances unchanged.
pub proof fn lemma_balance_after_jar_push(s1: State, s2: State, jar: TipJar)
    requires
        s1.wf(),
        !spec_has_jar(s1.tip_jars@, jar.owner@),
        s2.tip_jars@ == s1.tip_jars@.push(jar),
    ensures
        forall|o: Seq<char>, info: AssetInfo|
            (#[trigger] s2.tip_balance(o, info)) == if o == jar.owner@ {
                sum_matching(jar.tips@, info)
            } else {
                s1.tip_balance(o, info)
            },
        forall|info: AssetInfo| (#[trigger] s1.tip_balance(jar.owner@, info)) == 0,
{
    let n = s1.tip_jars@.len() as int;
    assert forall|k: int, l: int|
        0 <= k < l < s2.tip_jars@.len() implies (#[trigger] s2.tip_jars@[k].owner@) != (
    #[trigger] s2.tip_jars@[l].owner@) by {
        if l < n {
            assert(s1.tip_jars@[k].owner@ != s1.tip_jars@[l].owner@);
        } else {
            assert(s2.tip_jars@[l] == jar);
            assert(s2.tip_jars@[k] == s1.tip_jars@[k]);
            if s1.tip_jars@[k].owner@ == jar.owner@ {
                assert(spec_has_jar(s1.tip_jars@, jar.owner@));
            }
        }
    }
    lemma_jar_index_is(s2.tip_jars@, jar.owner@, n);
    assert forall|o: Seq<char>, info: AssetInfo| o != jar.owner@ implies (#[trigger] s2.tip_balance(
        o,
        info,
    )) == s1.tip_balance(o, info) by {
        if spec_has_jar(s1.tip_jars@, o) {
            let i = spec_jar_index(s1.tip_jars@, o);
            assert(0 <= i < n && s1.tip_jars@[i].owner@ == o);
            assert(s2.tip_jars@[i] == s1.tip_jars@[i]);
            lemma_jar_index_is(s2.tip_jars@, o, i);
        } else {
            if spec_has_jar(s2.tip_jars@, o) {
                let i = spec_jar_index(s2.tip_jars@, o);
                assert(0 <= i < s2.tip_jars@.len() && s2.tip_jars@[i].owner@ == o);
                assert(i != n);
                assert(s1.tip_jars@[i].owner@ == o);
                assert(false);
            }
        }
    }
}

/// Decomposing the matching sum at the front of the list.
pub proof fn lemma_sum_front(tips: Seq<Asset>, info: AssetInfo)
    requires
        tips.len() > 0,
    ensures
        sum_matching(tips, info) == (if tips[0].info.matches(info) {
            tips[0].amount as int
        } else {
            0
        }) + sum_matching(tips.drop_first(), info),
    decreases tips.len(),
{
    if tips.len() == 1 {
        assert(tips.drop_first() =~= Seq::<Asset>::empty());
        assert(tips.drop_last() =~= Seq::<Asset>::empty());
    } else {
        assert(tips.drop_first().drop_last() =~= tips.drop_last().drop_first());
        assert(tips.drop_first().last() == tips.last());
        assert(tips.drop_last()[0] == tips[0]);
        lemma_sum_front(tips.drop_last(), info);
    }
}

/// The position of the first jar entry matching the asset, `-1` when none
/// does.
pub open spec fn spec_find_tip(tips: Seq<Asset>, info: AssetInfo) -> int
    decreases tips.len(),
{
    if tips.len() == 0 {
        -1
    } else if tips[0].info.matches(info) {
        0
    } else {
        let r = spec_find_tip(tips.drop_first(), info);
        if r < 0 {
            -1
        } else {
            r + 1
        }
    }
}

/// A position that matches, with none matching before it, is the first.
pub proof fn lemma_find_tip_first(tips: Seq<Asset>, info: AssetInfo, i: int)
    requires
        0 <= i < tips.len(),
        tips[i].info.matches(info),
        forall|j: int| 0 <= j < i ==> !(#[trigger] tips[j].info).matches(info),
    ensures
        spec_find_tip(tips, info) == i,
    decreases tips.len(),
{
    if i > 0 {
        assert(tips.drop_first()[i - 1] == tips[i]);
        assert forall|j: int| 0 <= j < i - 1 implies !(#[trigger] tips.drop_first()[j].info).matches(
            info,
        ) by {
            assert(tips.drop_first()[j] == tips[j + 1]);
        }
        lemma_find_tip_first(tips.drop_first(), info, i - 1);
    }
}

/// Without a matching position the search reports none.
pub proof fn lemma_find_tip_none(tips: Seq<Asset>, info: AssetInfo)
    requires
        forall|j: int| 0 <= j < tips.len() ==> !(#[trigger] tips[j].info).matches(info),
    ensures
        spec_find_tip(tips, info) == -1,
    decreases tips.len(),
{
    if tips.len() > 0 {
        assert forall|j: int| 0 <= j < tips.drop_first().len() implies !(#[trigger] tips.drop_first(
        )[j].info).matches(info) by {
            assert(tips.drop_first()[j] == tips[j + 1]);
        }
        lemma_find_tip_none(tips.drop_first(), info);
    }
}

/// A found position lies in the list and matches.
pub proof fn lemma_find_tip_in_range(tips: Seq<Asset>, info: AssetInfo)
    requires
        spec_find_tip(tips, info) >= 0,
    ensures
        spec_find_tip(tips, info) < tips.len(),
        tips[spec_find_tip(tips, info)].info.matches(info),
    decreases tips.len(),
{
    if tips.len() > 0 && !tips[0].info.matches(info) {
        lemma_find_tip_in_range(tips.drop_first(), info);
    }
}

/// A search that reports none means no position matches.
pub proof fn lemma_find_tip_absent(tips: Seq<Asset>, info: AssetInfo)
    requires
        spec_find_tip(tips, info) < 0,
    ensures
        forall|j: int| 0 <= j < tips.len() ==> !(#[trigger] tips[j].info).matches(info),
    decreases tips.len(),
{
    if tips.len() > 0 {
        lemma_find_tip_absent(tips.drop_first(), info);
        assert forall|j: int| 0 <= j < tips.len() implies !(#[trigger] tips[j].info).matches(
            info,
        ) by {
            if j > 0 {
                assert(tips.drop_first()[j - 1] == tips[j]);
            }
        }
    }
}

/// With one stored configuration per user, the entry found for a user is
/// the one the configuration is read from.
pub proof fn lemma_user_config_entry(s: State, owner: Seq<char>, i: int)
    requires
        forall|k: int, l: int|
            0 <= k < l < s.user_configs@.len() ==> (#[trigger] s.user_configs@[k].owner@) != (
            #[trigger] s.user_configs@[l].owner@),
        0 <= i < s.user_configs@.len(),
        s.user_configs@[i].owner@ == owner,
    ensures
        spec_user_config(s, owner) == s.user_configs@[i].config,
{
    let w = choose|w: int|
        0 <= w < s.user_configs@.len() && (#[trigger] s.user_configs@[w].owner@) == owner;
    assert(0 <= w < s.user_configs@.len() && s.user_configs@[w].owner@ == owner);
    if w < i {
        assert(s.user_configs@[w].owner@ != s.user_configs@[i].owner@);
    } else if w > i {
        assert(s.user_configs@[i].owner@ != s.user_configs@[w].owner@);
    }
}

/// A jar with no entry in an asset holds sum zero in it.
pub proof fn lemma_sum_no_entry(tips: Seq<Asset>, info: AssetInfo)
    requires
        forall|k: int| 0 <= k < tips.len() ==> !(#[trigger] tips[k].info).matches(info),
    ensures
        sum_matching(tips, info) == 0,
    decreases tips.len(),
{
    if tips.len() > 0 {
        lemma_sum_no_entry(tips.drop_last(), info);
    }
}

} // verus!
