//! The persisted records and the store that holds them.
//!
//! The host keeps every record as bytes under a key. [`Store`] is what an
//! invocation sees of it: for each key, whether anything is stored there and,
//! if so, the record that the bytes read as.

use crate::error::{result_view, SlotKey, StdError, StdErrorView};
use crate::host::{Coin, CoinView};
use cosmwasm_std::Decimal;
use vstd::prelude::*;

verus! {

/// The primary record.
#[derive(Clone, Debug, PartialEq, Eq)]
pub struct State {
    /// The number of donations that counted.
    pub counter: u128,
    /// A donation counts when it exceeds this amount in this denomination.
    pub minimal_donation: Coin,
    /// How often a part of the donations is forwarded to the parent.
    pub donating_parent: u64,
}

pub struct StateView {
    pub counter: nat,
    pub minimal_donation: CoinView,
    pub donating_parent: nat,
}

impl View for State {
    type V = StateView;

    open spec fn view(&self) -> StateView {
        StateView {
            counter: self.counter as nat,
            minimal_donation: self.minimal_donation@,
            donating_parent: self.donating_parent as nat,
        }
    }
}

/// The state record as earlier versions wrote it: a narrower counter and no
/// forwarding period.
#[derive(Clone, Debug, PartialEq, Eq)]
pub struct LegacyState {
    pub counter: u64,
    pub minimal_donation: Coin,
}

pub struct LegacyStateView {
    pub counter: nat,
    pub minimal_donation: CoinView,
}

impl View for LegacyState {
    type V = LegacyStateView;

    open spec fn view(&self) -> LegacyStateView {
        LegacyStateView {
            counter: self.counter as nat,
            minimal_donation: self.minimal_donation@,
        }
    }
}

/// What is stored under the state key: a record in one of the two layouts.
#[derive(Clone, Debug, PartialEq, Eq)]
pub enum StateRecord {
    Legacy(LegacyState),
    Current(State),
}

pub enum StateRecordView {
    Legacy(LegacyStateView),
    Current(StateView),
}

impl View for StateRecord {
    type V = StateRecordView;

    open spec fn view(&self) -> StateRecordView {
        match self {
            StateRecord::Legacy(l) => StateRecordView::Legacy(l@),
            StateRecord::Current(s) => StateRecordView::Current(s@),
        }
    }
}

impl StateRecordView {
    /// The record read in the current layout. A legacy record lacks the
    /// forwarding period and does not read as a current one.
    pub open spec fn as_current(self) -> Option<StateView> {
        match self {
            StateRecordView::Current(s) => Some(s),
            StateRecordView::Legacy(_) => None,
        }
    }

    /// The record read in the legacy layout. A current record reads as a
    /// legacy one when its counter fits the narrower width: the field that
    /// the legacy layout does not know is passed over.
    pub open spec fn as_legacy(self) -> Option<LegacyStateView> {
        match self {
            StateRecordView::Legacy(l) => Some(l),
            StateRecordView::Current(s) => if s.counter <= u64::MAX {
                Some(LegacyStateView { counter: s.counter, minimal_donation: s.minimal_donation })
            } else {
                None
            },
        }
    }
}

/// The parent configuration as it is persisted.
#[derive(Clone, Debug, PartialEq, Eq)]
pub struct ParentDonation {
    /// The parent's address, validated by the host.
    pub address: String,
    pub donating_parent_period: u64,
    pub part: Decimal,
}

pub struct ParentDonationView {
    pub address: Seq<char>,
    pub donating_parent_period: nat,
    pub part: Decimal,
}

impl View for ParentDonation {
    type V = ParentDonationView;

    open spec fn view(&self) -> ParentDonationView {
        ParentDonationView {
            address: self.address@,
            donating_parent_period: self.donating_parent_period as nat,
            part: self.part,
        }
    }
}

/// The version record: which contract wrote the store, and at which version.
#[derive(Clone, Debug, PartialEq, Eq)]
pub struct ContractVersion {
    pub contract: String,
    pub version: String,
}

pub struct ContractVersionView {
    pub contract: Seq<char>,
    pub version: Seq<char>,
}

impl View for ContractVersion {
    type V = ContractVersionView;

    open spec fn view(&self) -> ContractVersionView {
        ContractVersionView { contract: self.contract@, version: self.version@ }
    }
}

/// What the store holds under one key.
#[derive(Clone, Debug, PartialEq, Eq)]
pub enum Slot<T> {
    /// Nothing is stored under the key.
    Empty,
    /// Bytes are stored under the key that do not read as a record.
    Corrupt,
    /// The record stored under the key.
    Holds(T),
}

impl<T: View> View for Slot<T> {
    type V = Slot<T::V>;

    open spec fn view(&self) -> Slot<T::V> {
        match self {
            Slot::Empty => Slot::Empty,
            Slot::Corrupt => Slot::Corrupt,
            Slot::Holds(t) => Slot::Holds(t@),
        }
    }
}

impl<T> Slot<T> {
    /// What loading the record stored under `key` gives.
    pub open spec fn read(self, key: SlotKey) -> Result<T, StdErrorView> {
        match self {
            Slot::Empty => Err(StdErrorView::NotFound { key }),
            Slot::Corrupt => Err(StdErrorView::ParseErr { key }),
            Slot::Holds(t) => Ok(t),
        }
    }
}

impl<T: View> Slot<T> {
    /// Loads the record stored under `key`.
    pub fn load(&self, key: SlotKey) -> (r: Result<&T, StdError>)
        ensures
            result_view(r) == self@.read(key),
    {
        match self {
            Slot::Empty => Err(StdError::NotFound { key }),
            Slot::Corrupt => Err(StdError::ParseErr { key }),
            Slot::Holds(t) => Ok(t),
        }
    }
}

/// The records of one contract instance, as an invocation finds them.
#[derive(Clone, Debug, PartialEq, Eq)]
pub struct Store {
    pub contract_info: Slot<ContractVersion>,
    pub state: Slot<StateRecord>,
    pub owner: Slot<String>,
    pub parent_donation: Slot<ParentDonation>,
    /// The counter as the first layout kept it.
    pub counter: Slot<u64>,
    /// The threshold as the first layout kept it.
    pub minimal_donation: Slot<Coin>,
}

pub struct StoreView {
    pub contract_info: Slot<ContractVersionView>,
    pub state: Slot<StateRecordView>,
    pub owner: Slot<Seq<char>>,
    pub parent_donation: Slot<ParentDonationView>,
    pub counter: Slot<u64>,
    pub minimal_donation: Slot<CoinView>,
}

impl View for Store {
    type V = StoreView;

    open spec fn view(&self) -> StoreView {
        StoreView {
            contract_info: self.contract_info@,
            state: self.state@,
            owner: self.owner@,
            parent_donation: self.parent_donation@,
            counter: self.counter@,
            minimal_donation: self.minimal_donation@,
        }
    }
}

impl StoreView {
    /// The store of an instance that was never set up.
    pub open spec fn empty() -> StoreView {
        StoreView {
            contract_info: Slot::Empty,
            state: Slot::Empty,
            owner: Slot::Empty,
            parent_donation: Slot::Empty,
            counter: Slot::Empty,
            minimal_donation: Slot::Empty,
        }
    }

    pub open spec fn load_contract_version(self) -> Result<ContractVersionView, StdErrorView> {
        self.contract_info.read(SlotKey::ContractInfo)
    }

    pub open spec fn load_owner(self) -> Result<Seq<char>, StdErrorView> {
        self.owner.read(SlotKey::Owner)
    }

    /// The state record, read in the current layout.
    pub open spec fn load_state(self) -> Result<StateView, StdErrorView> {
        match self.state.read(SlotKey::State) {
            Ok(record) => match record.as_current() {
                Some(s) => Ok(s),
                None => Err(StdErrorView::ParseErr { key: SlotKey::State }),
            },
            Err(e) => Err(e),
        }
    }

    /// The state record, read in the legacy layout.
    pub open spec fn load_legacy_state(self) -> Result<LegacyStateView, StdErrorView> {
        match self.state.read(SlotKey::State) {
            Ok(record) => match record.as_legacy() {
                Some(l) => Ok(l),
                None => Err(StdErrorView::ParseErr { key: SlotKey::State }),
            },
            Err(e) => Err(e),
        }
    }

    pub open spec fn save_state(self, state: StateView) -> StoreView {
        StoreView { state: Slot::Holds(StateRecordView::Current(state)), ..self }
    }

    pub open spec fn save_owner(self, owner: Seq<char>) -> StoreView {
        StoreView { owner: Slot::Holds(owner), ..self }
    }

    pub open spec fn save_parent_donation(self, parent: ParentDonationView) -> StoreView {
        StoreView { parent_donation: Slot::Holds(parent), ..self }
    }

    pub open spec fn save_contract_version(
        self,
        contract: Seq<char>,
        version: Seq<char>,
    ) -> StoreView {
        StoreView {
            contract_info: Slot::Holds(ContractVersionView { contract, version }),
            ..self
        }
    }
}

impl Store {
    /// The store of an instance that was never set up.
    pub fn new() -> (store: Store)
        ensures
            store@ == StoreView::empty(),
    {
        Store {
            contract_info: Slot::Empty,
            state: Slot::Empty,
            owner: Slot::Empty,
            parent_donation: Slot::Empty,
            counter: Slot::Empty,
            minimal_donation: Slot::Empty,
        }
    }

    pub fn load_contract_version(&self) -> (r: Result<&ContractVersion, StdError>)
        ensures
            result_view(r) == self@.load_contract_version(),
    {
        self.contract_info.load(SlotKey::ContractInfo)
    }

    pub fn load_owner(&self) -> (r: Result<&String, StdError>)
        ensures
            result_view(r) == self@.load_owner(),
    {
        self.owner.load(SlotKey::Owner)
    }

    /// Loads the state record in the current layout.
    pub fn load_state(&self) -> (r: Result<&State, StdError>)
        ensures
            result_view(r) == self@.load_state(),
    {
        match self.state.load(SlotKey::State) {
            Ok(StateRecord::Current(s)) => Ok(s),
            Ok(StateRecord::Legacy(_)) => Err(StdError::ParseErr { key: SlotKey::State }),
            Err(e) => Err(e),
        }
    }

    /// Loads the state record in the legacy layout.
    pub fn load_legacy_state(&self) -> (r: Result<LegacyState, StdError>)
        ensures
            result_view(r) == self@.load_legacy_state(),
    {
        match self.state.load(SlotKey::State) {
            Ok(StateRecord::Legacy(l)) => Ok(
                LegacyState { counter: l.counter, minimal_donation: l.minimal_donation.duplicate() },
            ),
            Ok(StateRecord::Current(s)) => {
                if s.counter <= u64::MAX as u128 {
                    Ok(
                        LegacyState {
                            counter: s.counter as u64,
                            minimal_donation: s.minimal_donation.duplicate(),
                        },
                    )
                } else {
                    Err(StdError::ParseErr { key: SlotKey::State })
                }
            },
            Err(e) => Err(e),
        }
    }

    pub fn save_state(&mut self, state: State)
        ensures
            final(self)@ == old(self)@.save_state(state@),
    {
        self.state = Slot::Holds(StateRecord::Current(state));
    }

    pub fn save_owner(&mut self, owner: String)
        ensures
            final(self)@ == old(self)@.save_owner(owner@),
    {
        self.owner = Slot::Holds(owner);
    }

    pub fn save_parent_donation(&mut self, parent: ParentDonation)
        ensures
            final(self)@ == old(self)@.save_parent_donation(parent@),
    {
        self.parent_donation = Slot::Holds(parent);
    }

    pub fn save_contract_version(&mut self, contract: String, version: String)
        ensures
            final(self)@ == old(self)@.save_contract_version(contract@, version@),
    {
        self.contract_info = Slot::Holds(ContractVersion { contract, version });
    }
}

} // verus!
