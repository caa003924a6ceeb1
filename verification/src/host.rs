//! Plain values exchanged with the host: coins, the caller's message
//! information, and the response a transition hands back.

use vstd::prelude::*;
use vstd::string::*;

verus! {

/// The host's fixed-point decimal. The contract stores such a value and
/// hands it on; it never looks inside.
#[verifier::external_type_specification]
#[verifier::external_body]
pub struct ExDecimal(cosmwasm_std::Decimal);

/// `Decimal` is a `Copy` type whose `Clone` is derived: the clone is the
/// value itself.
pub assume_specification[ <cosmwasm_std::Decimal as Clone>::clone ](
    d: &cosmwasm_std::Decimal,
) -> (r: cosmwasm_std::Decimal)
    ensures
        r == *d,
;

/// An amount of one denomination.
#[derive(Clone, Debug, PartialEq, Eq)]
pub struct Coin {
    pub denom: String,
    pub amount: u128,
}

/// The mathematical value of a [`Coin`].
pub struct CoinView {
    pub denom: Seq<char>,
    pub amount: nat,
}

impl View for Coin {
    type V = CoinView;

    open spec fn view(&self) -> CoinView {
        CoinView { denom: self.denom@, amount: self.amount as nat }
    }
}

impl Coin {
    pub fn new(amount: u128, denom: &str) -> (coin: Coin)
        ensures
            coin@ == (CoinView { denom: denom@, amount: amount as nat }),
    {
        Coin { denom: String::from_str(denom), amount }
    }

    /// A second coin of the same denomination and amount.
    pub fn duplicate(&self) -> (coin: Coin)
        ensures
            coin@ == self@,
    {
        Coin { denom: self.denom.clone(), amount: self.amount }
    }
}

/// The values of a list of coins, in order.
pub open spec fn coins_view(coins: Seq<Coin>) -> Seq<CoinView> {
    Seq::new(coins.len(), |i: int| coins[i]@)
}

/// Who called, and which funds came with the call.
#[derive(Clone, Debug, PartialEq, Eq)]
pub struct MessageInfo {
    pub sender: String,
    pub funds: Vec<Coin>,
}

pub struct MessageInfoView {
    pub sender: Seq<char>,
    pub funds: Seq<CoinView>,
}

impl View for MessageInfo {
    type V = MessageInfoView;

    open spec fn view(&self) -> MessageInfoView {
        MessageInfoView { sender: self.sender@, funds: coins_view(self.funds@) }
    }
}

/// One key and value of a response's metadata.
#[derive(Clone, Debug, PartialEq, Eq)]
pub struct Attribute {
    pub key: String,
    pub value: String,
}

pub struct AttributeView {
    pub key: Seq<char>,
    pub value: Seq<char>,
}

impl View for Attribute {
    type V = AttributeView;

    open spec fn view(&self) -> AttributeView {
        AttributeView { key: self.key@, value: self.value@ }
    }
}

/// An instruction to the host's bank.
#[derive(Clone, Debug, PartialEq, Eq)]
pub enum BankMsg {
    /// Send `amount` from the contract's account to `to_address`.
    Send { to_address: String, amount: Vec<Coin> },
}

pub enum BankMsgView {
    Send { to_address: Seq<char>, amount: Seq<CoinView> },
}

impl View for BankMsg {
    type V = BankMsgView;

    open spec fn view(&self) -> BankMsgView {
        match self {
            BankMsg::Send { to_address, amount } => BankMsgView::Send {
                to_address: to_address@,
                amount: coins_view(amount@),
            },
        }
    }
}

/// What a transition hands back to the host: the instructions to carry out
/// within the same invocation, and descriptive metadata.
#[derive(Clone, Debug, PartialEq, Eq)]
pub struct Response {
    pub messages: Vec<BankMsg>,
    pub attributes: Vec<Attribute>,
}

pub struct ResponseView {
    pub messages: Seq<BankMsgView>,
    pub attributes: Seq<AttributeView>,
}

impl View for Response {
    type V = ResponseView;

    open spec fn view(&self) -> ResponseView {
        ResponseView {
            messages: Seq::new(self.messages@.len(), |i: int| self.messages@[i]@),
            attributes: Seq::new(self.attributes@.len(), |i: int| self.attributes@[i]@),
        }
    }
}

impl ResponseView {
    /// The response with no instruction and no metadata.
    pub open spec fn empty() -> ResponseView {
        ResponseView { messages: Seq::empty(), attributes: Seq::empty() }
    }

    pub open spec fn add_message(self, msg: BankMsgView) -> ResponseView {
        ResponseView { messages: self.messages.push(msg), ..self }
    }

    pub open spec fn add_attribute(self, key: Seq<char>, value: Seq<char>) -> ResponseView {
        ResponseView { attributes: self.attributes.push(AttributeView { key, value }), ..self }
    }
}

impl Response {
    pub fn new() -> (resp: Response)
        ensures
            resp@ == ResponseView::empty(),
    {
        let resp = Response { messages: Vec::new(), attributes: Vec::new() };
        assert(resp@.messages =~= Seq::empty());
        assert(resp@.attributes =~= Seq::empty());
        resp
    }

    /// Appends an instruction for the host.
    pub fn add_message(self, msg: BankMsg) -> (resp: Response)
        ensures
            resp@ == self@.add_message(msg@),
    {
        let mut resp = self;
        resp.messages.push(msg);
        assert(resp@.messages =~= self@.messages.push(msg@));
        assert(resp@.attributes =~= self@.attributes);
        resp
    }

    /// Appends one key and value of metadata.
    pub fn add_attribute(self, key: &str, value: String) -> (resp: Response)
        ensures
            resp@ == self@.add_attribute(key@, value@),
    {
        let mut resp = self;
        resp.attributes.push(Attribute { key: String::from_str(key), value });
        assert(resp@.attributes =~= self@.attributes.push(
            AttributeView { key: key@, value: value@ },
        ));
        assert(resp@.messages =~= self@.messages);
        resp
    }
}

} // verus!
