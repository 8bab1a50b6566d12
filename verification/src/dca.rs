//! The DCA order itself and the route steps a purchase is performed through.

use vstd::prelude::*;

use crate::asset::Asset;
use crate::asset::AssetInfo;

verus! {

/// A standing dollar-cost-averaging order.
///
/// The deposited balance `initial_asset.amount` decreases by `dca_amount` on
/// each successful purchase; while the order is stored it is positive, at
/// least `dca_amount`, and divisible by `dca_amount`.  `last_purchase == 0`
/// is the sentinel for "never executed".
#[derive(Clone, Debug, PartialEq, Eq)]
pub struct DcaInfo {
    /// Unique id, assigned from a monotonic counter and never reused.
    pub id: u64,
    /// The account that created the order; immutable afterwards.
    pub owner: String,
    /// The remaining deposited balance available for future purchases.
    pub initial_asset: Asset,
    /// The asset being purchased.
    pub target_asset: AssetInfo,
    /// Seconds between purchases.
    pub interval: u64,
    /// Time of the last execution, in seconds; `0` when never executed.
    pub last_purchase: u64,
    /// The amount of `initial_asset` consumed by each purchase.
    pub dca_amount: u128,
    /// The earliest allowed time of the first purchase, when given.
    pub start_purchase: Option<u64>,
    /// Per-order override of the maximum number of route hops.
    pub max_hops: Option<u32>,
    /// Per-order override of the maximum swap spread, as a fraction with
    /// eighteen decimal places.
    pub max_spread: Option<u128>,
}

/// A whitelisted tip asset together with the fee a bot earns per hop
/// executed when it is paid in this asset.
#[derive(Clone, Debug, PartialEq, Eq)]
pub struct TipAssetInfo {
    pub info: AssetInfo,
    pub per_hop_fee: u128,
}

/// One step of a purchase route handed to the router.
#[derive(Clone, Debug, PartialEq, Eq)]
pub enum SwapOperation {
    /// A swap between two pool assets.
    AstroSwap { offer_asset_info: AssetInfo, ask_asset_info: AssetInfo },
    /// A native-pair swap; the purchase route refuses this kind.
    NativeSwap { offer_denom: String, ask_denom: String },
}

impl DcaInfo {
    /// A copy that is equal, as a value, to the original.
    pub fn duplicate(&self) -> (r: DcaInfo)
        ensures
            r == *self,
    {
        DcaInfo {
            id: self.id,
            owner: self.owner.clone(),
            initial_asset: self.initial_asset.duplicate(),
            target_asset: self.target_asset.duplicate(),
            interval: self.interval,
            last_purchase: self.last_purchase,
            dca_amount: self.dca_amount,
            start_purchase: self.start_purchase,
            max_hops: self.max_hops,
            max_spread: self.max_spread,
        }
    }
}

impl TipAssetInfo {
    /// A copy that is equal, as a value, to the original.
    pub fn duplicate(&self) -> (r: TipAssetInfo)
        ensures
            r == *self,
    {
        TipAssetInfo { info: self.info.duplicate(), per_hop_fee: self.per_hop_fee }
    }
}

impl SwapOperation {
    /// The asset this step offers, where it is a pool swap.
    pub open spec fn spec_offer(self) -> Option<AssetInfo> {
        match self {
            SwapOperation::AstroSwap { offer_asset_info, .. } => Some(offer_asset_info),
            SwapOperation::NativeSwap { .. } => None,
        }
    }

    /// The asset this step asks for, where it is a pool swap.
    pub open spec fn spec_ask(self) -> Option<AssetInfo> {
        match self {
            SwapOperation::AstroSwap { ask_asset_info, .. } => Some(ask_asset_info),
            SwapOperation::NativeSwap { .. } => None,
        }
    }
}

} // verus!
