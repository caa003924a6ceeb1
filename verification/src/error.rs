//! The failures of an invocation.

use vstd::prelude::*;
use vstd::std_specs::convert::FromSpecImpl;

verus! {

/// The records the contract keeps, each under a key of its own. The keys are
/// stable across versions of the contract.
#[derive(Clone, Copy, Debug, PartialEq, Eq)]
pub enum SlotKey {
    /// The version record.
    ContractInfo,
    /// The state record, in the current or in the earlier layout.
    State,
    /// The owner's address.
    Owner,
    /// The parent configuration.
    ParentDonation,
    /// The counter of the first layout, kept apart from the state record.
    Counter,
    /// The threshold of the first layout, kept apart from the state record.
    MinimalDonation,
}

impl SlotKey {
    /// The key under which the record is stored.
    pub open spec fn text(self) -> Seq<char> {
        match self {
            SlotKey::ContractInfo => "contract_info"@,
            SlotKey::State => "state"@,
            SlotKey::Owner => "owner"@,
            SlotKey::ParentDonation => "parent_donation"@,
            SlotKey::Counter => "counter"@,
            SlotKey::MinimalDonation => "minimal_donation"@,
        }
    }

    /// The key under which the record is stored.
    pub fn as_str(&self) -> (key: &'static str)
        ensures
            key@ == self.text(),
    {
        match self {
            SlotKey::ContractInfo => "contract_info",
            SlotKey::State => "state",
            SlotKey::Owner => "owner",
            SlotKey::ParentDonation => "parent_donation",
            SlotKey::Counter => "counter",
            SlotKey::MinimalDonation => "minimal_donation",
        }
    }
}

/// A failure on the host's side of an invocation.
#[derive(Clone, Debug, PartialEq, Eq)]
pub enum StdError {
    /// Nothing is stored under the key.
    NotFound { key: SlotKey },
    /// What is stored under the key does not read as the record asked for.
    ParseErr { key: SlotKey },
    /// The host refused a request; `msg` is its explanation.
    GenericErr { msg: String },
}

pub enum StdErrorView {
    NotFound { key: SlotKey },
    ParseErr { key: SlotKey },
    GenericErr { msg: Seq<char> },
}

impl View for StdError {
    type V = StdErrorView;

    open spec fn view(&self) -> StdErrorView {
        match self {
            StdError::NotFound { key } => StdErrorView::NotFound { key: *key },
            StdError::ParseErr { key } => StdErrorView::ParseErr { key: *key },
            StdError::GenericErr { msg } => StdErrorView::GenericErr { msg: msg@ },
        }
    }
}

impl StdError {
    /// A second error with the same content.
    pub fn duplicate(&self) -> (e: StdError)
        ensures
            e@ == self@,
    {
        match self {
            StdError::NotFound { key } => StdError::NotFound { key: *key },
            StdError::ParseErr { key } => StdError::ParseErr { key: *key },
            StdError::GenericErr { msg } => StdError::GenericErr { msg: msg.clone() },
        }
    }
}

/// Why an invocation was rejected.
#[derive(Clone, Debug, PartialEq, Eq)]
pub enum ContractError {
    /// A failure on the host's side, handed on as it came.
    Std(StdError),
    /// A payout was asked for by someone other than `owner`.
    Unauthorized { owner: String },
    /// The version record names another contract.
    InvalidName(String),
    /// The version record holds a version from which no upgrade is known.
    InvalidVersion(String),
}

pub enum ContractErrorView {
    Std(StdErrorView),
    Unauthorized { owner: Seq<char> },
    InvalidName(Seq<char>),
    InvalidVersion(Seq<char>),
}

impl View for ContractError {
    type V = ContractErrorView;

    open spec fn view(&self) -> ContractErrorView {
        match self {
            ContractError::Std(e) => ContractErrorView::Std(e@),
            ContractError::Unauthorized { owner } => ContractErrorView::Unauthorized {
                owner: owner@,
            },
            ContractError::InvalidName(name) => ContractErrorView::InvalidName(name@),
            ContractError::InvalidVersion(version) => ContractErrorView::InvalidVersion(version@),
        }
    }
}

impl From<StdError> for ContractError {
    fn from(e: StdError) -> (err: ContractError) {
        ContractError::Std(e)
    }
}

impl FromSpecImpl<StdError> for ContractError {
    open spec fn obeys_from_spec() -> bool {
        true
    }

    open spec fn from_spec(e: StdError) -> ContractError {
        ContractError::Std(e)
    }
}

/// The value of a result whose two sides both have a view.
pub open spec fn result_view<T: View, E: View>(r: Result<T, E>) -> Result<T::V, E::V> {
    match r {
        Ok(t) => Ok(t@),
        Err(e) => Err(e@),
    }
}

} // verus!
