//! The messages of the four entry points.

use crate::host::{Coin, CoinView};
use cosmwasm_std::Decimal;
use vstd::prelude::*;

verus! {

/// The configuration of a parent contract, as it arrives in a message.
#[derive(Clone, Debug, PartialEq, Eq)]
pub struct Parent {
    /// The parent's address, not yet validated.
    pub addr: String,
    /// How often a part of the donations is forwarded to the parent.
    pub donating_period: u64,
    /// The fraction of the donations that is forwarded.
    pub part: Decimal,
}

pub struct ParentView {
    pub addr: Seq<char>,
    pub donating_period: nat,
    pub part: Decimal,
}

impl View for Parent {
    type V = ParentView;

    open spec fn view(&self) -> ParentView {
        ParentView {
            addr: self.addr@,
            donating_period: self.donating_period as nat,
            part: self.part,
        }
    }
}

/// The value of an optional parent configuration.
pub open spec fn parent_view(parent: Option<Parent>) -> Option<ParentView> {
    match parent {
        Some(p) => Some(p@),
        None => None,
    }
}

#[derive(Clone, Debug, PartialEq, Eq)]
pub struct InstantiateMsg {
    /// A donation counts when it exceeds this amount in this denomination.
    pub minimal_donation: Coin,
    pub parent: Option<Parent>,
}

pub struct InstantiateMsgView {
    pub minimal_donation: CoinView,
    pub parent: Option<ParentView>,
}

impl View for InstantiateMsg {
    type V = InstantiateMsgView;

    open spec fn view(&self) -> InstantiateMsgView {
        InstantiateMsgView {
            minimal_donation: self.minimal_donation@,
            parent: parent_view(self.parent),
        }
    }
}

#[derive(Clone, Copy, Debug, PartialEq, Eq)]
pub enum QueryMsg {
    /// Asks for the counter.
    Value {  },
}

#[derive(Clone, Copy, Debug, PartialEq, Eq)]
pub enum ExecMsg {
    Donate {  },
    Withdraw {  },
}

/// The answer to [`QueryMsg::Value`].
#[derive(Clone, Copy, Debug, PartialEq, Eq)]
pub struct ValueResp {
    pub value: u128,
}

#[derive(Clone, Debug, PartialEq, Eq)]
pub struct MigrateMsg {
    /// Supplies the forwarding period that the first layout lacks.
    pub parent: Option<Parent>,
}

pub struct MigrateMsgView {
    pub parent: Option<ParentView>,
}

impl View for MigrateMsg {
    type V = MigrateMsgView;

    open spec fn view(&self) -> MigrateMsgView {
        MigrateMsgView { parent: parent_view(self.parent) }
    }
}

} // verus!
