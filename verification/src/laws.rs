//! What holds of the contract across invocations.

use crate::contract::exec::{donate_store, qualifies, withdraw_response};
use crate::contract::query::value_of;
use crate::contract::{
    gate, legacy_0_1_0, migrate_defined, migrate_response, migrate_store, upgraded,
    CONTRACT_NAME, CONTRACT_VERSION, FIRST_VERSION,
};
use crate::error::{ContractErrorView, StdErrorView};
use crate::host::{CoinView, MessageInfoView, ResponseView};
use crate::msg::{ExecMsg, MigrateMsgView};
use crate::state::{StateView, StoreView};
use crate::{execute_response, execute_store};
use vstd::prelude::*;

verus! {

/// The store after the donations `calls`, taken one after the other.
pub open spec fn donate_all(store: StoreView, calls: Seq<MessageInfoView>) -> StoreView
    decreases calls.len(),
{
    if calls.len() == 0 {
        store
    } else {
        donate_store(donate_all(store, calls.drop_last()), calls.last())
    }
}

/// How many of the donations `calls` count against `threshold`.
pub open spec fn count_qualifying(threshold: CoinView, calls: Seq<MessageInfoView>) -> nat
    decreases calls.len(),
{
    if calls.len() == 0 {
        0
    } else {
        count_qualifying(threshold, calls.drop_last()) + if qualifies(
            threshold,
            calls.last().funds,
        ) {
            1nat
        } else {
            0nat
        }
    }
}

/// After any sequence of donations the counter has grown by the number of
/// donations that counted, and by nothing else: a donation that does not
/// count leaves it alone. The threshold and the forwarding period stay as
/// they were.
pub proof fn counter_counts_qualifying_donations(store: StoreView, calls: Seq<MessageInfoView>)
    requires
        store.load_state() is Ok,
    ensures
        ({
            let state = store.load_state()->Ok_0;
            donate_all(store, calls).load_state() == Ok::<StateView, StdErrorView>(
                StateView {
                    counter: state.counter + count_qualifying(state.minimal_donation, calls),
                    ..state
                },
            )
        }),
    decreases calls.len(),
{
    if calls.len() > 0 {
        counter_counts_qualifying_donations(store, calls.drop_last());
    }
}

/// A donation touches nothing but the state record.
pub proof fn donations_keep_other_records(store: StoreView, calls: Seq<MessageInfoView>)
    ensures
        donate_all(store, calls) == (StoreView { state: donate_all(store, calls).state, ..store }),
    decreases calls.len(),
{
    if calls.len() > 0 {
        donations_keep_other_records(store, calls.drop_last());
    }
}

/// The threshold is strict. A donation of exactly the threshold's amount in
/// the threshold's denomination does not count; one unit more does.
pub proof fn threshold_is_strict(store: StoreView, sender: Seq<char>)
    requires
        store.load_state() is Ok,
    ensures
        ({
            let state = store.load_state()->Ok_0;
            let threshold = state.minimal_donation;
            let exact = MessageInfoView { sender, funds: seq![threshold] };
            let above = MessageInfoView {
                sender,
                funds: seq![CoinView { amount: threshold.amount + 1, ..threshold }],
            };
            &&& donate_store(store, exact) == store
            &&& value_of(donate_store(store, exact)) == Ok::<nat, StdErrorView>(state.counter)
            &&& value_of(donate_store(store, above)) == Ok::<nat, StdErrorView>(state.counter + 1)
        }),
{
    let state = store.load_state()->Ok_0;
    let threshold = state.minimal_donation;
    let more = CoinView { amount: threshold.amount + 1, ..threshold };
    assert(seq![more][0] == more);
    assert(qualifies(threshold, seq![more]));
}

/// Only the owner is paid. Whoever else asks is refused with the owner's
/// address, whatever the contract holds, and the store stays as it was: no
/// instruction to the bank comes back, so no balance moves.
pub proof fn stranger_is_refused(
    store: StoreView,
    info: MessageInfoView,
    balance: Result<Seq<CoinView>, StdErrorView>,
)
    requires
        store.load_owner() is Ok,
        info.sender != store.load_owner()->Ok_0,
    ensures
        withdraw_response(store, info, balance) == Err::<ResponseView, ContractErrorView>(
            ContractErrorView::Unauthorized { owner: store.load_owner()->Ok_0 },
        ),
        execute_response(store, info, ExecMsg::Withdraw {  }, balance) == Err::<
            ResponseView,
            ContractErrorView,
        >(ContractErrorView::Unauthorized { owner: store.load_owner()->Ok_0 }),
        execute_store(store, info, ExecMsg::Withdraw {  }) == store,
{
}

/// The first version and the current one are told apart.
pub proof fn versions_differ()
    ensures
        FIRST_VERSION@ != CONTRACT_VERSION@,
{
    reveal_strlit("0.1.0");
    reveal_strlit("0.3.0");
    assert(FIRST_VERSION@[2] == '1');
    assert(CONTRACT_VERSION@[2] == '3');
}

/// Migrating a store of the current version succeeds and changes no record.
pub proof fn migrate_at_current_version_is_noop(store: StoreView, msg: MigrateMsgView)
    requires
        gate(store) is Current,
    ensures
        migrate_defined(store, msg),
        migrate_store(store, msg) == store,
        migrate_response(store) == Ok::<ResponseView, ContractErrorView>(ResponseView::empty()),
{
}

/// A migration that succeeded leaves a store of the current version, so
/// migrating again, with whatever message, succeeds and changes nothing.
pub proof fn migrate_is_idempotent(store: StoreView, msg: MigrateMsgView, again: MigrateMsgView)
    requires
        migrate_defined(store, msg),
        migrate_response(store) is Ok,
    ensures
        gate(migrate_store(store, msg)) is Current,
        migrate_defined(migrate_store(store, msg), again),
        migrate_store(migrate_store(store, msg), again) == migrate_store(store, msg),
        migrate_response(migrate_store(store, msg)) == Ok::<ResponseView, ContractErrorView>(
            ResponseView::empty(),
        ),
{
    versions_differ();
}

/// A store of this contract at a version that is neither the first nor the
/// current one is refused with that version, and no record changes: the
/// version record in particular stays whole.
pub proof fn unsupported_version_is_refused(store: StoreView, msg: MigrateMsgView)
    requires
        store.load_contract_version() is Ok,
        store.load_contract_version()->Ok_0.contract == CONTRACT_NAME@,
        store.load_contract_version()->Ok_0.version != FIRST_VERSION@,
        store.load_contract_version()->Ok_0.version != CONTRACT_VERSION@,
    ensures
        migrate_defined(store, msg),
        migrate_response(store) == Err::<ResponseView, ContractErrorView>(
            ContractErrorView::InvalidVersion(store.load_contract_version()->Ok_0.version),
        ),
        migrate_store(store, msg) == store,
{
}

/// A store of another contract is refused with that contract's name, and no
/// record changes.
pub proof fn foreign_store_is_refused(store: StoreView, msg: MigrateMsgView)
    requires
        store.load_contract_version() is Ok,
        store.load_contract_version()->Ok_0.contract != CONTRACT_NAME@,
    ensures
        migrate_defined(store, msg),
        migrate_response(store) == Err::<ResponseView, ContractErrorView>(
            ContractErrorView::InvalidName(store.load_contract_version()->Ok_0.contract),
        ),
        migrate_store(store, msg) == store,
{
}

/// A migration that fails changes no record.
pub proof fn failed_migration_changes_nothing(store: StoreView, msg: MigrateMsgView)
    requires
        migrate_response(store) is Err,
    ensures
        migrate_store(store, msg) == store,
{
}

/// The upgrade from the first version carries the counter and the threshold
/// over and stamps the store with the current version. The owner and the
/// name in the version record stay as they were.
pub proof fn migrate_from_first_version(store: StoreView, msg: MigrateMsgView)
    requires
        gate(store) is First,
        legacy_0_1_0(store) is Ok,
        msg.parent is Some,
    ensures
        migrate_response(store) == Ok::<ResponseView, ContractErrorView>(ResponseView::empty()),
        migrate_store(store, msg).load_state() == Ok::<StateView, StdErrorView>(
            upgraded(legacy_0_1_0(store)->Ok_0, msg.parent->0),
        ),
        value_of(migrate_store(store, msg)) == Ok::<nat, StdErrorView>(
            store.counter->Holds_0 as nat,
        ),
        migrate_store(store, msg).load_contract_version()->Ok_0.version == CONTRACT_VERSION@,
        migrate_store(store, msg).load_contract_version()->Ok_0.contract
            == store.load_contract_version()->Ok_0.contract,
        migrate_store(store, msg).owner == store.owner,
{
}

} // verus!
