//! Building the outbound transfer message for an asset: native coins go out
//! as a bank transfer, contract-issued tokens as a token transfer.

use vstd::prelude::*;

use crate::asset::AssetInfo;
use crate::response::OutMsg;

verus! {

/// The transfer message moving `amount` of the asset to `to`.
pub open spec fn spec_asset_transfer(info: AssetInfo, amount: u128, to: String) -> OutMsg {
    match info {
        AssetInfo::NativeToken { denom } => OutMsg::BankSend { to_address: to, denom, amount },
        AssetInfo::Token { contract_addr } => OutMsg::Cw20Transfer {
            token_addr: contract_addr,
            recipient: to,
            amount,
        },
    }
}

/// Builds the transfer message moving `amount` of the asset to `to`.
pub fn asset_transfer(info: &AssetInfo, amount: u128, to: &String) -> (r: OutMsg)
    ensures
        r == spec_asset_transfer(*info, amount, *to),
{
    match info {
        AssetInfo::NativeToken { denom } => OutMsg::BankSend {
            to_address: to.clone(),
            denom: denom.clone(),
            amount,
        },
        AssetInfo::Token { contract_addr } => OutMsg::Cw20Transfer {
            token_addr: contract_addr.clone(),
            recipient: to.clone(),
            amount,
        },
    }
}

} // verus!
