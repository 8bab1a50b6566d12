//! What a call brings with it: the block time, the sender and attached
//! coins, and the answers to the synchronous reads the host performs before
//! the operation runs (token allowances, the factory owner).  The message
//! enums the host dispatches on are here too.

use vstd::prelude::*;

use crate::asset::Asset;
use crate::asset::AssetInfo;
use crate::asset::Coin;
use crate::dca::SwapOperation;
use crate::dca::TipAssetInfo;

verus! {

/// The block environment of a call.
#[derive(Clone, Debug, PartialEq, Eq)]
pub struct Env {
    /// The current block time, in seconds.
    pub block_time: u64,
}

/// The sender of a call and the native coins attached to it.
#[derive(Clone, Debug, PartialEq, Eq)]
pub struct MessageInfo {
    pub sender: String,
    pub funds: Vec<Coin>,
}

/// One answer to a token-allowance query: what `owner` has authorized this
/// contract to draw from the token at `token_addr`.
#[derive(Clone, Debug, PartialEq, Eq)]
pub struct AllowanceEntry {
    pub token_addr: String,
    pub owner: String,
    pub amount: u128,
}

/// The results of the synchronous reads an operation may need, gathered by
/// the caller before the operation runs.
#[derive(Clone, Debug, PartialEq, Eq)]
pub struct Externals {
    /// The owner stored in the factory contract's configuration.
    pub factory_owner: String,
    /// Allowance query answers; a pair absent here reads as zero.
    pub allowances: Vec<AllowanceEntry>,
}

/// The amount of the first attached coin of the given denom, zero when none
/// is attached.
pub open spec fn spec_sent_amount(funds: Seq<Coin>, denom: Seq<char>) -> u128
    decreases funds.len(),
{
    if funds.len() == 0 {
        0
    } else if funds[0].denom@ == denom {
        funds[0].amount
    } else {
        spec_sent_amount(funds.drop_first(), denom)
    }
}

/// The allowance reported for the given token and owner, zero when no entry
/// answers for the pair.
pub open spec fn spec_allowance(
    entries: Seq<AllowanceEntry>,
    token: Seq<char>,
    owner: Seq<char>,
) -> u128
    decreases entries.len(),
{
    if entries.len() == 0 {
        0
    } else if entries[0].token_addr@ == token && entries[0].owner@ == owner {
        entries[0].amount
    } else {
        spec_allowance(entries.drop_first(), token, owner)
    }
}

/// The native funding attached for the given asset matches its amount
/// exactly.  For a non-native asset this check does not apply.
pub open spec fn spec_native_deposit_ok(funds: Seq<Coin>, asset: Asset) -> bool {
    match asset.info {
        AssetInfo::NativeToken { denom } => spec_sent_amount(funds, denom@) == asset.amount,
        AssetInfo::Token { .. } => true,
    }
}

/// Reads the amount of the first attached coin of the given denom.
pub fn sent_amount(funds: &Vec<Coin>, denom: &String) -> (r: u128)
    ensures
        r == spec_sent_amount(funds@, denom@),
{
    let mut i: usize = 0;
    proof {
        assert(funds@.subrange(0, funds@.len() as int) =~= funds@);
    }
    while i < funds.len()
        invariant
            0 <= i <= funds@.len(),
            spec_sent_amount(funds@, denom@) == spec_sent_amount(
                funds@.subrange(i as int, funds@.len() as int),
                denom@,
            ),
        decreases funds@.len() - i,
    {
        let ghost suffix = funds@.subrange(i as int, funds@.len() as int);
        proof {
            assert(suffix.len() > 0);
            assert(suffix[0] == funds@[i as int]);
            assert(suffix.drop_first() =~= funds@.subrange(i as int + 1, funds@.len() as int));
        }
        if funds[i].denom == *denom {
            proof {
                assert(spec_sent_amount(suffix, denom@) == funds@[i as int].amount);
            }
            return funds[i].amount;
        }
        proof {
            assert(spec_sent_amount(suffix, denom@) == spec_sent_amount(
                suffix.drop_first(),
                denom@,
            ));
        }
        i = i + 1;
    }
    0
}

impl Externals {
    /// Reads the allowance reported for the given token and owner.
    pub fn allowance_of(&self, token: &String, owner: &String) -> (r: u128)
        ensures
            r == spec_allowance(self.allowances@, token@, owner@),
    {
        let mut i: usize = 0;
        proof {
            assert(self.allowances@.subrange(0, self.allowances@.len() as int)
                =~= self.allowances@);
        }
        while i < self.allowances.len()
            invariant
                0 <= i <= self.allowances@.len(),
                spec_allowance(self.allowances@, token@, owner@) == spec_allowance(
                    self.allowances@.subrange(i as int, self.allowances@.len() as int),
                    token@,
                    owner@,
                ),
            decreases self.allowances@.len() - i,
        {
            let ghost suffix = self.allowances@.subrange(i as int, self.allowances@.len() as int);
            proof {
                assert(suffix.len() > 0);
                assert(suffix[0] == self.allowances@[i as int]);
                assert(suffix.drop_first() =~= self.allowances@.subrange(
                    i as int + 1,
                    self.allowances@.len() as int,
                ));
            }
            if self.allowances[i].token_addr == *token && self.allowances[i].owner == *owner {
                proof {
                    assert(spec_allowance(suffix, token@, owner@) == self.allowances@[
                        i as int
                    ].amount);
                }
                return self.allowances[i].amount;
            }
            proof {
                assert(spec_allowance(suffix, token@, owner@) == spec_allowance(
                    suffix.drop_first(),
                    token@,
                    owner@,
                ));
            }
            i = i + 1;
        }
        0
    }
}

/// The message creating this contract.
#[derive(Clone, Debug, PartialEq, Eq)]
pub struct InstantiateMsg {
    pub max_hops: u32,
    pub whitelisted_tokens: Vec<AssetInfo>,
    pub whitelisted_tip_tokens: Vec<TipAssetInfo>,
    /// Fraction with eighteen decimal places.
    pub max_spread: u128,
    pub factory_addr: String,
    pub router_addr: String,
}

/// A migration message; migrations take no arguments.
#[derive(Clone, Debug, PartialEq, Eq)]
pub struct MigrateMsg {}

/// What a token-transfer hook may ask this contract to do with the tokens
/// it just received.
#[derive(Clone, Debug, PartialEq, Eq)]
pub enum Cw20HookMsg {
    /// Credit the received tokens to the sending user's tip ledger.
    AddBotTips {},
}

/// The mutating operations of the contract.
#[derive(Clone, Debug, PartialEq, Eq)]
pub enum ExecuteMsg {
    /// A token transfer into the contract, with its decoded hook message.
    Receive { sender: String, amount: u128, msg: Cw20HookMsg },
    /// Credits one declared asset, which native funds must back, to the
    /// sender's tip ledger.
    AddBotTip { asset: Asset },
    /// Credits every attached coin to the sender's tip ledger.
    AddTips {},
    /// Pays tip balances back out; all of them when no list is given.
    Withdraw { assets: Option<Vec<Asset>> },
    CreateDcaOrder {
        initial_asset: Asset,
        target_asset: AssetInfo,
        interval: u64,
        dca_amount: u128,
        start_purchase: Option<u64>,
        max_hops: Option<u32>,
        max_spread: Option<u128>,
    },
    ModifyDcaOrder {
        id: u64,
        new_initial_asset: Option<Asset>,
        new_target_asset: Option<AssetInfo>,
        new_interval: Option<u64>,
        new_dca_amount: Option<u128>,
        should_reset_purchase_time: bool,
        start_purchase: Option<u64>,
        max_hops: Option<u32>,
        max_spread: Option<u128>,
    },
    CancelDcaOrder { id: u64 },
    PerformDcaPurchase { id: u64, hops: Vec<SwapOperation> },
    UpdateConfig {
        max_hops: Option<u32>,
        whitelisted_tokens: Option<Vec<AssetInfo>>,
        whitelisted_tip_tokens: Option<Vec<TipAssetInfo>>,
        max_spread: Option<u128>,
    },
    UpdateUserConfig { max_hops: Option<u32>, max_spread: Option<u128> },
}

/// The read-only queries of the contract.
#[derive(Clone, Debug, PartialEq, Eq)]
pub enum QueryMsg {
    Config {},
    Tips {},
    DcaOrder { id: u64 },
    DcaOrders { start_after: Option<u64>, limit: Option<u32> },
    AllDcaOrders { start_after: Option<u64>, limit: Option<u32>, is_ascending: Option<bool> },
    UserDcaOrders { user: String, start_after: Option<u64>, limit: Option<u32> },
    UserAssetDcaOrders {
        user: String,
        asset: AssetInfo,
        start_after: Option<u64>,
        limit: Option<u32>,
    },
    UserTips { user: String },
    UserConfig { user: String },
}

/// The contract configuration as a query answer.
#[derive(Clone, Debug, PartialEq, Eq)]
pub struct ConfigResponse {
    pub max_hops: u32,
    /// Fraction with eighteen decimal places.
    pub max_spread: u128,
    pub whitelisted_tokens: Vec<AssetInfo>,
    pub whitelisted_tip_tokens: Vec<TipAssetInfo>,
    pub factory_addr: String,
    pub router_addr: String,
}

/// What a query answers with.
#[derive(Clone, Debug, PartialEq, Eq)]
pub enum QueryResponse {
    Config(ConfigResponse),
    Tips(Vec<TipAssetInfo>),
    Order(crate::dca::DcaInfo),
    Orders(Vec<crate::dca::DcaInfo>),
    UserOrders(Vec<UserDcaInfo>),
    UserTips(Vec<Asset>),
    UserConfig(crate::user_config::UserConfig),
}

/// A stored order together with what the owner can still actually spend on
/// it: the remaining amount for a native deposit, the current allowance for
/// a token deposit.
#[derive(Clone, Debug, PartialEq, Eq)]
pub struct UserDcaInfo {
    pub token_allowance: u128,
    pub info: crate::dca::DcaInfo,
}

} // verus!
