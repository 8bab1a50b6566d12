//! What a successful operation hands back to the host: outbound messages to
//! dispatch after the state commit, log attributes, and at most one event.
//! The messages are fire-and-forget; the contract never waits for their
//! outcome, and a later failure of one does not roll the state change back.

use vstd::prelude::*;

use crate::asset::Coin;
use crate::dca::SwapOperation;

verus! {

/// An outbound message enqueued by an operation.
#[derive(Clone, Debug, PartialEq, Eq)]
pub enum OutMsg {
    /// Transfer of native coins out of the contract.
    BankSend { to_address: String, denom: String, amount: u128 },
    /// A token transfer out of the contract's balance.
    Cw20Transfer { token_addr: String, recipient: String, amount: u128 },
    /// A token transfer drawn from an owner's allowance.
    Cw20TransferFrom { token_addr: String, owner: String, recipient: String, amount: u128 },
    /// The swap request handed to the router contract.
    RouterSwap {
        router_addr: String,
        operations: Vec<SwapOperation>,
        minimum_receive: Option<u128>,
        to: String,
        /// Fraction with eighteen decimal places.
        max_spread: u128,
        funds: Vec<Coin>,
    },
}

/// The value of a log attribute.
#[derive(Clone, Debug, PartialEq, Eq)]
pub enum AttrValue {
    Text(String),
    Uint(u128),
}

/// One log attribute.
#[derive(Clone, Debug, PartialEq, Eq)]
pub struct Attribute {
    pub key: String,
    pub value: AttrValue,
}

/// The kind of event a purchase reports.
#[derive(Clone, Copy, Debug, PartialEq, Eq)]
pub enum EventKind {
    /// The purchase went through and the order remains stored.
    PurchaseExecuted,
    /// The purchase consumed the order's last funds; the order is gone.
    PurchaseFinished,
}

/// The event a purchase reports, naming the order and its owner.
#[derive(Clone, Debug, PartialEq, Eq)]
pub struct DcaEvent {
    pub kind: EventKind,
    pub id: u64,
    pub owner: String,
}

/// What a successful operation returns.
#[derive(Clone, Debug, PartialEq, Eq)]
pub struct Response {
    pub messages: Vec<OutMsg>,
    pub attributes: Vec<Attribute>,
    pub event: Option<DcaEvent>,
}

/// The attribute has the given key and the given text value.
pub open spec fn is_text_attr(a: Attribute, key: Seq<char>, value: Seq<char>) -> bool {
    a.key@ == key && (a.value matches AttrValue::Text(t) && t@ == value)
}

/// The attribute has the given key and the given numeric value.
pub open spec fn is_uint_attr(a: Attribute, key: Seq<char>, value: u128) -> bool {
    a.key@ == key && a.value == AttrValue::Uint(value)
}

impl Response {
    /// An empty response: no messages, no attributes, no event.
    pub fn new() -> (r: Response)
        ensures
            r.messages@ == Seq::<OutMsg>::empty(),
            r.attributes@ == Seq::<Attribute>::empty(),
            r.event is None,
    {
        Response { messages: Vec::new(), attributes: Vec::new(), event: None }
    }
}

/// Pushes an attribute with a text value.
pub fn push_text_attr(attrs: &mut Vec<Attribute>, key: &str, value: &str)
    ensures
        final(attrs)@.len() == old(attrs)@.len() + 1,
        final(attrs)@.subrange(0, old(attrs)@.len() as int) == old(attrs)@,
        is_text_attr(final(attrs)@[old(attrs)@.len() as int], key@, value@),
{
    let a = Attribute { key: key.to_owned(), value: AttrValue::Text(value.to_owned()) };
    attrs.push(a);
    proof {
        assert(attrs@.subrange(0, old(attrs)@.len() as int) =~= old(attrs)@);
    }
}

/// Pushes an attribute with a numeric value.
pub fn push_uint_attr(attrs: &mut Vec<Attribute>, key: &str, value: u128)
    ensures
        final(attrs)@.len() == old(attrs)@.len() + 1,
        final(attrs)@.subrange(0, old(attrs)@.len() as int) == old(attrs)@,
        is_uint_attr(final(attrs)@[old(attrs)@.len() as int], key@, value),
{
    let a = Attribute { key: key.to_owned(), value: AttrValue::Uint(value) };
    attrs.push(a);
    proof {
        assert(attrs@.subrange(0, old(attrs)@.len() as int) =~= old(attrs)@);
    }
}

} // verus!
