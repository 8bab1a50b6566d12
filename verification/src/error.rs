//! Errors of the contract.  Every validation failure aborts the whole call
//! with one of these kinds and leaves the state untouched; no error is
//! recovered from inside the contract.

use vstd::prelude::*;

use crate::response::Response;

verus! {

/// The call failed with exactly this error.
pub open spec fn err_is(r: Result<Response, ContractError>, e: ContractError) -> bool {
    r == Err::<Response, ContractError>(e)
}

#[derive(Clone, Debug, PartialEq, Eq)]
pub enum ContractError {
    /// The caller is not the owner of the order, or not the factory owner.
    Unauthorized {},
    /// A tip credit of zero amount.
    InvalidZeroAmount {},
    /// A tip asset that is not on the tip whitelist.
    InvalidTipAssetInfo {},
    /// The attached native funds do not match the declared deposit.
    InvalidNativeTokenDeposit {},
    /// The token allowance granted to the contract does not cover the deposit.
    InvalidTokenDeposit {},
    /// The deposited asset and the target asset are the same.
    DuplicateAsset {},
    /// The per-purchase amount exceeds the deposited amount.
    DepositTooSmall {},
    /// The deposited amount is not divisible by the per-purchase amount.
    IndivisibleDeposit {},
    /// A requested first-purchase time that lies in the past.
    StartTimeInPast {},
    /// A purchase was requested with an empty hop route.
    EmptyHopRoute {},
    /// A purchase route with more hops than the effective maximum.
    MaxHopsAssertion { hops: u32 },
    /// A native-pair swap step, which the router route does not support.
    NativeSwapNotSupported {},
    /// The route does not start at the order's deposited asset.
    InitialAssetAssertion {},
    /// The route does not end at the order's target asset.
    TargetAssetAssertion {},
    /// An intermediate route asset that is not whitelisted.
    InvalidHopRoute { token: String },
    /// The order is not yet eligible for its next purchase.
    PurchaseTooEarly {},
    /// The order's remaining balance cannot cover one purchase.
    InsufficientBalance {},
    /// The owner holds no tip ledger at all.
    NoTipBalance {},
    /// No single tip balance covers the required fee or withdrawal.
    InsufficientTipBalance {},
    /// A withdrawal names a tip asset the owner holds no entry for.
    NonExistentTipJar { token: String },
    /// No order is stored under the given id.
    NonExistentDca {},
    /// A division by zero, from a zero per-purchase amount.
    DivideByZero {},
    /// An unsigned arithmetic overflow.
    Overflow {},
}

} // verus!
