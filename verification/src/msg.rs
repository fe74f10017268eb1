//! Call envelopes, the execution context, and operation results, all as plain
//! values. The host dispatcher builds these from its transport layer and
//! performs whatever the machine declares in a [`Response`].

use crate::state::{Coin, CoinView, State};
use vstd::prelude::*;

verus! {

/// The ledger context an operation runs against: the current block height, a
/// monotonically non-decreasing unsigned integer across calls.
#[derive(Clone, Debug, PartialEq, Eq)]
pub struct Env {
    pub height: u64,
}

/// Who invoked the operation and which funds the call attached. Attached
/// funds are already escrowed by the surrounding ledger transaction before
/// the machine runs.
#[derive(Clone, Debug, PartialEq, Eq)]
pub struct MessageInfo {
    pub sender: String,
    pub funds: Vec<Coin>,
}

/// The terms asked of a new option: the counter-offer required to exercise
/// it and the height at which it expires.
#[derive(Clone, Debug, PartialEq, Eq)]
pub struct InstantiateMsg {
    pub counter_offer: Vec<Coin>,
    pub expires: u64,
}

/// The three commands the state machine executes.
#[derive(Clone, Debug, PartialEq, Eq)]
pub enum ExecuteMsg {
    /// Hand ownership of the option to `recipient`.
    Transfer { recipient: String },
    /// Pay the counter-offer and collect the collateral.
    Execute,
    /// After expiry, return the collateral to the creator.
    Burn,
}

/// The single read-only query.
#[derive(Clone, Debug, PartialEq, Eq)]
pub enum QueryMsg {
    Config,
}

/// The config query returns the current record verbatim.
pub type ConfigResponse = State;

/// A settlement instruction: pay this list of coins to this address. The
/// machine only declares the payment; the host ledger performs it.
#[derive(Clone, Debug, PartialEq, Eq)]
pub struct BankMsg {
    pub to_address: String,
    pub amount: Vec<Coin>,
}

/// The mathematical value of a [`BankMsg`].
#[verifier::ext_equal]
pub ghost struct BankMsgView {
    pub to_address: Seq<char>,
    pub amount: Seq<CoinView>,
}

impl View for BankMsg {
    type V = BankMsgView;

    open spec fn view(&self) -> BankMsgView {
        BankMsgView { to_address: self.to_address@, amount: self.amount.deep_view() }
    }
}

impl DeepView for BankMsg {
    type V = BankMsgView;

    open spec fn deep_view(&self) -> BankMsgView {
        self.view()
    }
}

/// A string-keyed log attribute recorded by a successful operation.
#[derive(Clone, Debug, PartialEq, Eq)]
pub struct Attribute {
    pub key: String,
    pub value: String,
}

/// The mathematical value of an [`Attribute`].
#[verifier::ext_equal]
pub ghost struct AttributeView {
    pub key: Seq<char>,
    pub value: Seq<char>,
}

impl View for Attribute {
    type V = AttributeView;

    open spec fn view(&self) -> AttributeView {
        AttributeView { key: self.key@, value: self.value@ }
    }
}

impl DeepView for Attribute {
    type V = AttributeView;

    open spec fn deep_view(&self) -> AttributeView {
        self.view()
    }
}

/// What a successful operation hands back to the host: settlement
/// instructions to perform, in order, and log attributes to record.
#[derive(Clone, Debug, PartialEq, Eq)]
pub struct Response {
    pub messages: Vec<BankMsg>,
    pub attributes: Vec<Attribute>,
}

/// The mathematical value of a [`Response`].
#[verifier::ext_equal]
pub ghost struct ResponseView {
    pub messages: Seq<BankMsgView>,
    pub attributes: Seq<AttributeView>,
}

impl View for Response {
    type V = ResponseView;

    open spec fn view(&self) -> ResponseView {
        ResponseView {
            messages: self.messages.deep_view(),
            attributes: self.attributes.deep_view(),
        }
    }
}

} // verus!
