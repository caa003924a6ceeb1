//! A donation counter with a payout to its owner.
//!
//! An instance keeps a counter of the donations that exceeded a threshold,
//! pays its balance out to the owner on request, and upgrades the records
//! that earlier versions of the contract wrote.
//!
//! The host calls one of four entry points per invocation and keeps the
//! records between invocations. Every entry point here works on the
//! [`state::Store`] that the invocation found and on the host's answers to
//! what the contract asks of it; it leaves the store as the invocation
//! leaves it. An invocation that fails leaves the store unchanged.

use crate::error::{result_view, ContractError, ContractErrorView, StdError, StdErrorView};
use crate::host::{Coin, CoinView, MessageInfo, MessageInfoView, Response, ResponseView};
use crate::msg::{ExecMsg, InstantiateMsg, MigrateMsg, QueryMsg, ValueResp};
use crate::state::{Store, StoreView};
use vstd::prelude::*;

pub mod contract;
pub mod error;
pub mod host;
pub mod laws;
pub mod msg;
pub mod state;
pub mod text;

verus! {

/// Sets an instance up. See [`contract::instantiate`].
pub fn instantiate(
    store: &mut Store,
    info: MessageInfo,
    msg: InstantiateMsg,
    parent_addr: Result<String, StdError>,
) -> (r: Result<Response, StdError>)
    requires
        msg.parent is Some,
    ensures
        final(store)@ == contract::instantiate_store(
            old(store)@,
            info@,
            msg@,
            result_view(parent_addr),
        ),
        result_view(r) == contract::instantiate_response(result_view(parent_addr)),
{
    contract::instantiate(store, info, msg, parent_addr)
}

/// Answers a query. The store is only read.
pub fn query(store: &Store, msg: QueryMsg) -> (r: Result<ValueResp, StdError>)
    ensures
        match r {
            Ok(resp) => contract::query::value_of(store@) == Ok::<nat, StdErrorView>(
                resp.value as nat,
            ),
            Err(e) => contract::query::value_of(store@) == Err::<nat, StdErrorView>(e@),
        },
{
    match msg {
        QueryMsg::Value {  } => contract::query::value(store),
    }
}

/// Whether [`execute`] may be called: a donation that counts needs room for
/// the counter to grow.
pub open spec fn execute_defined(store: StoreView, info: MessageInfoView, msg: ExecMsg) -> bool {
    msg is Donate ==> contract::exec::donate_defined(store, info)
}

/// The store after [`execute`]. Only a donation writes.
pub open spec fn execute_store(store: StoreView, info: MessageInfoView, msg: ExecMsg) -> StoreView {
    match msg {
        ExecMsg::Donate {  } => contract::exec::donate_store(store, info),
        ExecMsg::Withdraw {  } => store,
    }
}

/// What [`execute`] hands back.
pub open spec fn execute_response(
    store: StoreView,
    info: MessageInfoView,
    msg: ExecMsg,
    balance: Result<Seq<CoinView>, StdErrorView>,
) -> Result<ResponseView, ContractErrorView> {
    match msg {
        ExecMsg::Donate {  } => match contract::exec::donate_response(store, info) {
            Ok(resp) => Ok(resp),
            Err(e) => Err(ContractErrorView::Std(e)),
        },
        ExecMsg::Withdraw {  } => contract::exec::withdraw_response(store, info, balance),
    }
}

/// Carries out the operation that `msg` names.
///
/// `balance` is the host's answer on what the contract holds; only a payout
/// reads it.
pub fn execute(
    store: &mut Store,
    info: MessageInfo,
    msg: ExecMsg,
    balance: Result<Vec<Coin>, StdError>,
) -> (r: Result<Response, ContractError>)
    requires
        execute_defined(old(store)@, info@, msg),
    ensures
        final(store)@ == execute_store(old(store)@, info@, msg),
        result_view(r) == execute_response(
            old(store)@,
            info@,
            msg,
            contract::exec::balance_view(balance),
        ),
{
    match msg {
        ExecMsg::Donate {  } => match contract::exec::donate(store, info) {
            Ok(resp) => Ok(resp),
            Err(e) => Err(ContractError::from(e)),
        },
        ExecMsg::Withdraw {  } => contract::exec::withdraw(store, info, balance),
    }
}

/// Brings a store up to the current version. See [`contract::migrate`].
pub fn migrate(store: &mut Store, msg: MigrateMsg) -> (r: Result<Response, ContractError>)
    requires
        contract::migrate_defined(old(store)@, msg@),
    ensures
        final(store)@ == contract::migrate_store(old(store)@, msg@),
        result_view(r) == contract::migrate_response(old(store)@),
{
    contract::migrate(store, msg)
}

} // verus!
