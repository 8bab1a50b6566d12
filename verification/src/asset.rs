//! The asset model: a token is either a native coin (identified by its denom)
//! or a contract-issued token (identified by the token contract's address);
//! an `Asset` pairs a token identity with an amount in the chain's smallest
//! unit.  Equality of identities is structural on the tag and the identifier.

use vstd::prelude::*;

verus! {

/// Identity of a token: a native denomination or a token contract address.
#[derive(Clone, Debug, PartialEq, Eq)]
pub enum AssetInfo {
    NativeToken { denom: String },
    Token { contract_addr: String },
}

/// A token identity together with an amount in the chain's smallest unit.
#[derive(Clone, Debug, PartialEq, Eq)]
pub struct Asset {
    pub info: AssetInfo,
    pub amount: u128,
}

/// A native coin attached to a call.
#[derive(Clone, Debug, PartialEq, Eq)]
pub struct Coin {
    pub denom: String,
    pub amount: u128,
}

impl AssetInfo {
    /// Two identities match when they carry the same tag and the same
    /// identifier text.  Two assets with different tags are always distinct,
    /// even if the identifier text coincides.
    pub open spec fn matches(self, other: AssetInfo) -> bool {
        match (self, other) {
            (AssetInfo::NativeToken { denom: a }, AssetInfo::NativeToken { denom: b }) => a@ == b@,
            (AssetInfo::Token { contract_addr: a }, AssetInfo::Token { contract_addr: b }) => a@
                == b@,
            _ => false,
        }
    }

    /// True when the identity is a native denomination.
    pub open spec fn spec_is_native(&self) -> bool {
        self is NativeToken
    }

    /// The identifier text: the denom of a native coin, the address of a
    /// token contract.
    pub open spec fn spec_id(self) -> Seq<char> {
        match self {
            AssetInfo::NativeToken { denom } => denom@,
            AssetInfo::Token { contract_addr } => contract_addr@,
        }
    }

    /// The identifier as the string value it is stored as.
    pub open spec fn spec_id_string(self) -> String {
        match self {
            AssetInfo::NativeToken { denom } => denom,
            AssetInfo::Token { contract_addr } => contract_addr,
        }
    }

    #[verifier::when_used_as_spec(spec_is_native)]
    pub fn is_native_token(&self) -> (r: bool)
        ensures
            r == self.spec_is_native(),
    {
        match self {
            AssetInfo::NativeToken { .. } => true,
            AssetInfo::Token { .. } => false,
        }
    }

    /// Structural equality test on tag and identifier.
    pub fn equal(&self, other: &AssetInfo) -> (r: bool)
        ensures
            r == self.matches(*other),
    {
        match (self, other) {
            (AssetInfo::NativeToken { denom: a }, AssetInfo::NativeToken { denom: b }) => *a == *b,
            (AssetInfo::Token { contract_addr: a }, AssetInfo::Token { contract_addr: b }) => *a
                == *b,
            _ => false,
        }
    }

    /// The identifier text as an owned string.
    pub fn id_string(&self) -> (r: String)
        ensures
            r == self.spec_id_string(),
            r@ == self.spec_id(),
    {
        match self {
            AssetInfo::NativeToken { denom } => denom.clone(),
            AssetInfo::Token { contract_addr } => contract_addr.clone(),
        }
    }

    /// A copy that is equal, as a value, to the original.
    pub fn duplicate(&self) -> (r: AssetInfo)
        ensures
            r == *self,
    {
        match self {
            AssetInfo::NativeToken { denom } => AssetInfo::NativeToken { denom: denom.clone() },
            AssetInfo::Token { contract_addr } => AssetInfo::Token {
                contract_addr: contract_addr.clone(),
            },
        }
    }
}

impl Asset {
    /// A copy that is equal, as a value, to the original.
    pub fn duplicate(&self) -> (r: Asset)
        ensures
            r == *self,
    {
        Asset { info: self.info.duplicate(), amount: self.amount }
    }
}

/// `matches` is reflexive, symmetric and transitive: it is the intended
/// equality of token identities.
pub proof fn lemma_matches_equivalence(a: AssetInfo, b: AssetInfo, c: AssetInfo)
    ensures
        a.matches(a),
        a.matches(b) == b.matches(a),
        a.matches(b) && b.matches(c) ==> a.matches(c),
{
}

} // verus!
