//! Setting an instance up, and upgrading the records that earlier versions
//! wrote.
//!
//! Every transition works on the [`Store`] that the invocation found. A
//! transition that fails leaves the store as it was.

use crate::error::{
    result_view, ContractError, ContractErrorView, SlotKey, StdError, StdErrorView,
};
use crate::host::{MessageInfo, MessageInfoView, Response, ResponseView};
use crate::msg::{
    parent_view, InstantiateMsg, InstantiateMsgView, MigrateMsg, MigrateMsgView, Parent,
    ParentView,
};
use crate::state::{
    LegacyState, LegacyStateView, ParentDonation, ParentDonationView, State, StateView, Store,
    StoreView,
};
use crate::text::text_is;
use vstd::prelude::*;

pub mod exec;
pub mod query;

verus! {

/// The name under which this contract stamps its stores.
pub const CONTRACT_NAME: &'static str = "counting-contract";

/// The version that this contract stamps on the stores it writes.
pub const CONTRACT_VERSION: &'static str = "0.3.0";

/// The version whose stores [`migrate`] knows how to upgrade.
pub const FIRST_VERSION: &'static str = "0.1.0";

/// The store after [`instantiate`]. With the parent's address accepted, the
/// version record, the state with its counter at zero, the owner and the
/// parent configuration are written; with the address refused, nothing is.
pub open spec fn instantiate_store(
    store: StoreView,
    info: MessageInfoView,
    msg: InstantiateMsgView,
    parent_addr: Result<Seq<char>, StdErrorView>,
) -> StoreView
    recommends
        msg.parent is Some,
{
    match parent_addr {
        Ok(address) => {
            let parent = msg.parent->0;
            store.save_contract_version(CONTRACT_NAME@, CONTRACT_VERSION@).save_state(
                StateView {
                    counter: 0,
                    minimal_donation: msg.minimal_donation,
                    donating_parent: parent.donating_period,
                },
            ).save_owner(info.sender).save_parent_donation(
                ParentDonationView {
                    address,
                    donating_parent_period: parent.donating_period,
                    part: parent.part,
                },
            )
        },
        Err(_) => store,
    }
}

/// What [`instantiate`] hands back: an empty response, or the host's refusal
/// of the parent's address.
pub open spec fn instantiate_response(parent_addr: Result<Seq<char>, StdErrorView>) -> Result<
    ResponseView,
    StdErrorView,
> {
    match parent_addr {
        Ok(_) => Ok(ResponseView::empty()),
        Err(e) => Err(e),
    }
}

/// Sets an instance up: the caller becomes the owner and the counter starts
/// at zero.
///
/// `parent_addr` is the host's answer on the address in `msg.parent`: the
/// validated address, or why it was refused.
///
/// The forwarding period of the state is taken from `msg.parent`, which is
/// therefore required, although the message declares it optional.
pub fn instantiate(
    store: &mut Store,
    info: MessageInfo,
    msg: InstantiateMsg,
    parent_addr: Result<String, StdError>,
) -> (r: Result<Response, StdError>)
    requires
        msg.parent is Some,
    ensures
        final(store)@ == instantiate_store(old(store)@, info@, msg@, result_view(parent_addr)),
        result_view(r) == instantiate_response(result_view(parent_addr)),
{
    let address = match parent_addr {
        Ok(address) => address,
        Err(e) => {
            return Err(e);
        },
    };
    let parent = msg.parent.unwrap();
    store.save_contract_version(CONTRACT_NAME.to_owned(), CONTRACT_VERSION.to_owned());
    store.save_state(
        State {
            counter: 0,
            minimal_donation: msg.minimal_donation,
            donating_parent: parent.donating_period,
        },
    );
    store.save_owner(info.sender);
    store.save_parent_donation(
        ParentDonation {
            address,
            donating_parent_period: parent.donating_period,
            part: parent.part,
        },
    );
    Ok(Response::new())
}

/// What the upgrade from the first layout reads. That layout kept the counter
/// and the threshold under keys of their own, beside a state record in the
/// legacy layout. All three are loaded, in this order, and the first failure
/// is the one reported; the counter and the threshold come from their own
/// keys.
pub open spec fn legacy_0_1_0(store: StoreView) -> Result<LegacyStateView, StdErrorView> {
    match store.counter.read(SlotKey::Counter) {
        Err(e) => Err(e),
        Ok(counter) => match store.minimal_donation.read(SlotKey::MinimalDonation) {
            Err(e) => Err(e),
            Ok(minimal_donation) => match store.load_legacy_state() {
                Err(e) => Err(e),
                Ok(_) => Ok(LegacyStateView { counter: counter as nat, minimal_donation }),
            },
        },
    }
}

/// What the upgrade from the second layout reads: the state record, in the
/// legacy layout.
pub open spec fn legacy_0_2_0(store: StoreView) -> Result<LegacyStateView, StdErrorView> {
    store.load_legacy_state()
}

/// The current state that stands for a legacy one: the counter widened, the
/// threshold as it was, the forwarding period from `parent`.
pub open spec fn upgraded(legacy: LegacyStateView, parent: ParentView) -> StateView {
    StateView {
        counter: legacy.counter,
        minimal_donation: legacy.minimal_donation,
        donating_parent: parent.donating_period,
    }
}

/// Whether an upgrade step has what it needs: once the legacy records are
/// read, the forwarding period must come from `parent`.
pub open spec fn upgrade_defined(
    legacy: Result<LegacyStateView, StdErrorView>,
    parent: Option<ParentView>,
) -> bool {
    legacy is Ok ==> parent is Some
}

/// The store after an upgrade step: the state record rewritten in the
/// current layout, or the store as it was where the legacy records could not
/// be read.
pub open spec fn upgrade_store(
    store: StoreView,
    legacy: Result<LegacyStateView, StdErrorView>,
    parent: Option<ParentView>,
) -> StoreView
    recommends
        upgrade_defined(legacy, parent),
{
    match legacy {
        Ok(l) => store.save_state(upgraded(l, parent->0)),
        Err(_) => store,
    }
}

/// What an upgrade step hands back: an empty response, or the failure to
/// read the legacy records.
pub open spec fn upgrade_response(legacy: Result<LegacyStateView, StdErrorView>) -> Result<
    ResponseView,
    StdErrorView,
> {
    match legacy {
        Ok(_) => Ok(ResponseView::empty()),
        Err(e) => Err(e),
    }
}

fn load_legacy_0_1_0(store: &Store) -> (r: Result<LegacyState, StdError>)
    ensures
        result_view(r) == legacy_0_1_0(store@),
{
    let counter: u64 = match store.counter.load(SlotKey::Counter) {
        Ok(counter) => *counter,
        Err(e) => {
            return Err(e);
        },
    };
    let minimal_donation = match store.minimal_donation.load(SlotKey::MinimalDonation) {
        Ok(coin) => coin.duplicate(),
        Err(e) => {
            return Err(e);
        },
    };
    match store.load_legacy_state() {
        Ok(_) => Ok(LegacyState { counter, minimal_donation }),
        Err(e) => Err(e),
    }
}

fn upgrade(store: &mut Store, legacy: Result<LegacyState, StdError>, parent: Option<Parent>) -> (r:
    Result<Response, StdError>)
    requires
        upgrade_defined(result_view(legacy), parent_view(parent)),
    ensures
        final(store)@ == upgrade_store(old(store)@, result_view(legacy), parent_view(parent)),
        result_view(r) == upgrade_response(result_view(legacy)),
{
    match legacy {
        Ok(l) => {
            let period: u64 = parent.unwrap().donating_period;
            store.save_state(
                State {
                    counter: l.counter as u128,
                    minimal_donation: l.minimal_donation,
                    donating_parent: period,
                },
            );
            Ok(Response::new())
        },
        Err(e) => Err(e),
    }
}

/// Upgrades the records of the first layout: writes the state in the current
/// layout from the counter and the threshold that were kept apart.
///
/// The forwarding period is taken from `parent`, which is therefore required
/// wherever the legacy records can be read.
pub fn migrate_0_1_0(store: &mut Store, parent: Option<Parent>) -> (r: Result<Response, StdError>)
    requires
        upgrade_defined(legacy_0_1_0(old(store)@), parent_view(parent)),
    ensures
        final(store)@ == upgrade_store(
            old(store)@,
            legacy_0_1_0(old(store)@),
            parent_view(parent),
        ),
        result_view(r) == upgrade_response(legacy_0_1_0(old(store)@)),
{
    let legacy = load_legacy_0_1_0(store);
    upgrade(store, legacy, parent)
}

/// Upgrades the state record of the second layout: rewrites it in the
/// current layout.
///
/// The forwarding period is taken from `parent`, which is therefore required
/// wherever the legacy record can be read.
pub fn migrate_0_2_0(store: &mut Store, parent: Option<Parent>) -> (r: Result<Response, StdError>)
    requires
        upgrade_defined(legacy_0_2_0(old(store)@), parent_view(parent)),
    ensures
        final(store)@ == upgrade_store(
            old(store)@,
            legacy_0_2_0(old(store)@),
            parent_view(parent),
        ),
        result_view(r) == upgrade_response(legacy_0_2_0(old(store)@)),
{
    let legacy = store.load_legacy_state();
    upgrade(store, legacy, parent)
}

/// Where a store stands before the migration gate.
pub enum Gate {
    /// The version record cannot be read.
    Unreadable(StdErrorView),
    /// The store was written by a contract of another name.
    WrongName(Seq<char>),
    /// The store is of the first version and is upgraded.
    First,
    /// The store is of the current version: there is nothing to do.
    Current,
    /// The store is of a version from which no upgrade is known.
    Unsupported(Seq<char>),
}

/// Reads the version record and tells where the store stands. The name is
/// checked before the version, and the first version before the current one.
pub open spec fn gate(store: StoreView) -> Gate {
    match store.load_contract_version() {
        Err(e) => Gate::Unreadable(e),
        Ok(found) => if found.contract != CONTRACT_NAME@ {
            Gate::WrongName(found.contract)
        } else if found.version == FIRST_VERSION@ {
            Gate::First
        } else if found.version == CONTRACT_VERSION@ {
            Gate::Current
        } else {
            Gate::Unsupported(found.version)
        },
    }
}

/// Whether [`migrate`] has what it needs: a store of the first version whose
/// legacy records can be read is upgraded with the forwarding period from
/// `msg.parent`.
pub open spec fn migrate_defined(store: StoreView, msg: MigrateMsgView) -> bool {
    gate(store) is First ==> upgrade_defined(legacy_0_1_0(store), msg.parent)
}

/// The store after [`migrate`]: upgraded and stamped with the current
/// version where it was of the first version and its legacy records could be
/// read, and as it was in every other case.
pub open spec fn migrate_store(store: StoreView, msg: MigrateMsgView) -> StoreView
    recommends
        migrate_defined(store, msg),
{
    if gate(store) is First && legacy_0_1_0(store) is Ok {
        upgrade_store(store, legacy_0_1_0(store), msg.parent).save_contract_version(
            CONTRACT_NAME@,
            CONTRACT_VERSION@,
        )
    } else {
        store
    }
}

/// What [`migrate`] hands back.
pub open spec fn migrate_response(store: StoreView) -> Result<ResponseView, ContractErrorView> {
    match gate(store) {
        Gate::Unreadable(e) => Err(ContractErrorView::Std(e)),
        Gate::WrongName(name) => Err(ContractErrorView::InvalidName(name)),
        Gate::First => match legacy_0_1_0(store) {
            Ok(_) => Ok(ResponseView::empty()),
            Err(e) => Err(ContractErrorView::Std(e)),
        },
        Gate::Current => Ok(ResponseView::empty()),
        Gate::Unsupported(version) => Err(ContractErrorView::InvalidVersion(version)),
    }
}

/// Whether [`migrate`] may be called on `store` with `msg`.
pub fn can_migrate(store: &Store, msg: &MigrateMsg) -> (defined: bool)
    ensures
        defined == migrate_defined(store@, msg@),
{
    let first = match store.load_contract_version() {
        Ok(found) => text_is(&found.contract, CONTRACT_NAME) && text_is(
            &found.version,
            FIRST_VERSION,
        ),
        Err(_) => false,
    };
    if first {
        msg.parent.is_some() || load_legacy_0_1_0(store).is_err()
    } else {
        true
    }
}

/// Brings a store up to the current version.
///
/// A store of the current version is left as it is. A store of the first
/// version is upgraded by [`migrate_0_1_0`] and stamped with the current
/// version. A store of another contract, or of any other version, is
/// refused.
pub fn migrate(store: &mut Store, msg: MigrateMsg) -> (r: Result<Response, ContractError>)
    requires
        migrate_defined(old(store)@, msg@),
    ensures
        final(store)@ == migrate_store(old(store)@, msg@),
        result_view(r) == migrate_response(old(store)@),
{
    let found = match store.load_contract_version() {
        Ok(found) => found,
        Err(e) => {
            return Err(ContractError::Std(e));
        },
    };
    if !text_is(&found.contract, CONTRACT_NAME) {
        return Err(ContractError::InvalidName(found.contract.clone()));
    }
    if text_is(&found.version, FIRST_VERSION) {
        match migrate_0_1_0(store, msg.parent) {
            Ok(resp) => {
                store.save_contract_version(CONTRACT_NAME.to_owned(), CONTRACT_VERSION.to_owned());
                Ok(resp)
            },
            Err(e) => Err(ContractError::Std(e)),
        }
    } else if text_is(&found.version, CONTRACT_VERSION) {
        Ok(Response::new())
    } else {
        Err(ContractError::InvalidVersion(found.version.clone()))
    }
}

} // verus!
