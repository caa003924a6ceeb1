use counting_contract::contract::exec::{
    can_donate, donate, has_qualifying_fund, is_authorized, withdraw,
};
use counting_contract::contract::query::value;
use counting_contract::error::{ContractError, SlotKey, StdError};
use counting_contract::execute;
use counting_contract::host::{Attribute, BankMsg, Coin, MessageInfo, Response};
use counting_contract::msg::{ExecMsg, ValueResp};
use counting_contract::state::{LegacyState, Slot, State, StateRecord, Store};

fn store_with(counter: u128) -> Store {
    let mut store = Store::new();
    store.state = Slot::Holds(StateRecord::Current(State {
        counter,
        minimal_donation: Coin::new(10, "atom"),
        donating_parent: 4,
    }));
    store.owner = Slot::Holds("owner".to_string());
    store
}

fn call(sender: &str, funds: Vec<Coin>) -> MessageInfo {
    MessageInfo { sender: sender.to_string(), funds }
}

fn attribute(key: &str, value: &str) -> Attribute {
    Attribute { key: key.to_string(), value: value.to_string() }
}

fn counter(store: &Store) -> u128 {
    value(store).unwrap().value
}

#[test]
fn exact_threshold_does_not_count() {
    let threshold = Coin::new(10, "atom");
    assert!(!has_qualifying_fund(&threshold, &vec![Coin::new(10, "atom")]));
    assert!(has_qualifying_fund(&threshold, &vec![Coin::new(11, "atom")]));
    assert!(!has_qualifying_fund(&threshold, &vec![Coin::new(9, "atom")]));
    assert!(!has_qualifying_fund(&threshold, &vec![]));

    let mut store = store_with(0);
    donate(&mut store, call("sender", vec![Coin::new(10, "atom")])).unwrap();
    assert_eq!(store, store_with(0));
    donate(&mut store, call("sender", vec![Coin::new(11, "atom")])).unwrap();
    assert_eq!(store, store_with(1));
}

#[test]
fn threshold_of_zero_counts_any_positive_amount() {
    let threshold = Coin::new(0, "atom");
    assert!(!has_qualifying_fund(&threshold, &vec![Coin::new(0, "atom")]));
    assert!(has_qualifying_fund(&threshold, &vec![Coin::new(1, "atom")]));
}

#[test]
fn other_denominations_are_ignored() {
    let threshold = Coin::new(10, "atom");
    assert!(!has_qualifying_fund(&threshold, &vec![Coin::new(1000, "uatom")]));
    assert!(!has_qualifying_fund(&threshold, &vec![Coin::new(1000, "ATOM")]));
    assert!(!has_qualifying_fund(&threshold, &vec![Coin::new(1000, "ato")]));
    assert!(!has_qualifying_fund(&threshold, &vec![Coin::new(1000, "")]));

    let mut store = store_with(5);
    let resp = donate(&mut store, call("sender", vec![Coin::new(1000, "eth")]));
    assert!(resp.is_ok());
    assert_eq!(store, store_with(5));
}

#[test]
fn qualifying_fund_is_found_anywhere_in_the_list() {
    let threshold = Coin::new(10, "atom");
    let mixed = vec![Coin::new(50, "eth"), Coin::new(10, "atom"), Coin::new(11, "atom")];
    assert!(has_qualifying_fund(&threshold, &mixed));
    let first = vec![Coin::new(11, "atom"), Coin::new(1, "atom")];
    assert!(has_qualifying_fund(&threshold, &first));
}

#[test]
fn several_qualifying_funds_count_once() {
    let mut store = store_with(2);
    let funds = vec![Coin::new(11, "atom"), Coin::new(500, "atom"), Coin::new(12, "atom")];

    donate(&mut store, call("sender", funds)).unwrap();

    assert_eq!(store, store_with(3));
}

#[test]
fn donate_reports_action_sender_and_counter() {
    let mut store = store_with(41);

    let resp = donate(&mut store, call("alice", vec![Coin::new(11, "atom")])).unwrap();

    assert_eq!(
        resp,
        Response {
            messages: vec![],
            attributes: vec![
                attribute("action", "poke"),
                attribute("sender", "alice"),
                attribute("counter", "42"),
            ],
        }
    );
}

#[test]
fn donate_that_does_not_count_reports_the_unchanged_counter() {
    let mut store = store_with(41);

    let resp = donate(&mut store, call("bob", vec![])).unwrap();

    assert_eq!(
        resp.attributes,
        vec![attribute("action", "poke"), attribute("sender", "bob"), attribute("counter", "41")]
    );
    assert!(resp.messages.is_empty());
    assert_eq!(store, store_with(41));
}

#[test]
fn donate_keeps_threshold_period_and_other_records() {
    let mut store = store_with(0);
    store.counter = Slot::Holds(17);

    donate(&mut store, call("sender", vec![Coin::new(11, "atom")])).unwrap();

    let mut expected = store_with(1);
    expected.counter = Slot::Holds(17);
    assert_eq!(store, expected);
}

#[test]
fn donate_without_state_fails_and_writes_nothing() {
    let mut store = Store::new();
    let resp = donate(&mut store, call("sender", vec![Coin::new(11, "atom")]));
    assert_eq!(resp, Err(StdError::NotFound { key: SlotKey::State }));
    assert_eq!(store, Store::new());

    store.state = Slot::Corrupt;
    let resp = donate(&mut store, call("sender", vec![Coin::new(11, "atom")]));
    assert_eq!(resp, Err(StdError::ParseErr { key: SlotKey::State }));
    assert_eq!(store.state, Slot::Corrupt);
}

#[test]
fn donate_on_a_legacy_record_fails() {
    let legacy = StateRecord::Legacy(LegacyState {
        counter: 1,
        minimal_donation: Coin::new(10, "atom"),
    });
    let mut store = Store::new();
    store.state = Slot::Holds(legacy.clone());

    let resp = donate(&mut store, call("sender", vec![Coin::new(11, "atom")]));

    assert_eq!(resp, Err(StdError::ParseErr { key: SlotKey::State }));
    assert_eq!(store.state, Slot::Holds(legacy));
}

#[test]
fn counter_grows_by_the_number_of_qualifying_donations() {
    let mut store = store_with(100);
    let amounts: [u128; 7] = [11, 10, 0, 12, 9, 1000, 10];
    let mut qualifying: u128 = 0;
    for amount in amounts {
        let before = counter(&store);
        donate(&mut store, call("sender", vec![Coin::new(amount, "atom")])).unwrap();
        if amount > 10 {
            qualifying += 1;
            assert_eq!(counter(&store), before + 1);
        } else {
            assert_eq!(counter(&store), before);
        }
    }
    assert_eq!(qualifying, 3);
    assert_eq!(counter(&store), 103);
}

#[test]
fn donate_is_defined_until_the_counter_is_full() {
    let full = store_with(u128::MAX);
    assert!(!can_donate(&full, &call("sender", vec![Coin::new(11, "atom")])));
    assert!(can_donate(&full, &call("sender", vec![Coin::new(10, "atom")])));
    assert!(can_donate(&full, &call("sender", vec![])));

    let mut nearly = store_with(u128::MAX - 1);
    assert!(can_donate(&nearly, &call("sender", vec![Coin::new(11, "atom")])));
    donate(&mut nearly, call("sender", vec![Coin::new(11, "atom")])).unwrap();
    assert_eq!(nearly, full);

    assert!(can_donate(&Store::new(), &call("sender", vec![Coin::new(11, "atom")])));
}

#[test]
fn donation_that_does_not_count_passes_a_full_counter() {
    let mut store = store_with(u128::MAX);

    let resp = donate(&mut store, call("sender", vec![Coin::new(10, "atom")])).unwrap();

    assert_eq!(resp.attributes[2], attribute("counter", "340282366920938463463374607431768211455"));
    assert_eq!(store, store_with(u128::MAX));
}

#[test]
fn value_reports_the_stored_counter() {
    assert_eq!(value(&store_with(0)), Ok(ValueResp { value: 0 }));
    assert_eq!(value(&store_with(7)), Ok(ValueResp { value: 7 }));
    assert_eq!(value(&store_with(u128::MAX)), Ok(ValueResp { value: u128::MAX }));
    assert_eq!(value(&Store::new()), Err(StdError::NotFound { key: SlotKey::State }));
    let mut store = Store::new();
    store.state = Slot::Corrupt;
    assert_eq!(value(&store), Err(StdError::ParseErr { key: SlotKey::State }));
}

#[test]
fn authorization_is_equality_with_the_owner() {
    assert!(is_authorized(&"owner".to_string(), &"owner".to_string()));
    assert!(!is_authorized(&"owner".to_string(), &"Owner".to_string()));
    assert!(!is_authorized(&"owner".to_string(), &"owner ".to_string()));
    assert!(!is_authorized(&"owner".to_string(), &"".to_string()));
}

#[test]
fn owner_withdraws_the_whole_balance() {
    let store = store_with(3);
    let balance = vec![Coin::new(20, "atom"), Coin::new(3, "eth")];

    let resp = withdraw(&store, call("owner", vec![]), Ok(balance.clone())).unwrap();

    assert_eq!(
        resp,
        Response {
            messages: vec![BankMsg::Send { to_address: "owner".to_string(), amount: balance }],
            attributes: vec![attribute("action", "withdraw"), attribute("sender", "owner")],
        }
    );
}

#[test]
fn owner_withdraws_an_empty_balance() {
    let store = store_with(3);

    let resp = withdraw(&store, call("owner", vec![]), Ok(vec![])).unwrap();

    assert_eq!(
        resp.messages,
        vec![BankMsg::Send { to_address: "owner".to_string(), amount: vec![] }]
    );
}

#[test]
fn stranger_is_refused_with_the_owner_address() {
    let store = store_with(3);
    let balance = vec![Coin::new(20, "atom")];

    let resp = withdraw(&store, call("member", vec![]), Ok(balance));

    assert_eq!(resp, Err(ContractError::Unauthorized { owner: "owner".to_string() }));
}

#[test]
fn withdraw_failures_come_in_order() {
    let query_failed = StdError::GenericErr { msg: "querier unavailable".to_string() };

    // Without an owner record nothing else is looked at.
    let mut store = store_with(3);
    store.owner = Slot::Empty;
    assert_eq!(
        withdraw(&store, call("member", vec![]), Err(query_failed.clone())),
        Err(ContractError::Std(StdError::NotFound { key: SlotKey::Owner }))
    );
    store.owner = Slot::Corrupt;
    assert_eq!(
        withdraw(&store, call("member", vec![]), Ok(vec![])),
        Err(ContractError::Std(StdError::ParseErr { key: SlotKey::Owner }))
    );

    // A stranger is refused before the balance is looked at.
    let store = store_with(3);
    assert_eq!(
        withdraw(&store, call("member", vec![]), Err(query_failed.clone())),
        Err(ContractError::Unauthorized { owner: "owner".to_string() })
    );

    // The owner gets the host's failure as it came.
    assert_eq!(
        withdraw(&store, call("owner", vec![]), Err(query_failed.clone())),
        Err(ContractError::Std(query_failed))
    );
}

#[test]
fn execute_dispatches_on_the_message() {
    let mut store = store_with(0);

    let resp = execute(
        &mut store,
        call("sender", vec![Coin::new(11, "atom")]),
        ExecMsg::Donate {},
        Ok(vec![Coin::new(11, "atom")]),
    )
    .unwrap();
    assert_eq!(resp.attributes[0], attribute("action", "poke"));
    assert!(resp.messages.is_empty());
    assert_eq!(store, store_with(1));

    let resp = execute(
        &mut store,
        call("owner", vec![]),
        ExecMsg::Withdraw {},
        Ok(vec![Coin::new(11, "atom")]),
    )
    .unwrap();
    assert_eq!(resp.attributes[0], attribute("action", "withdraw"));
    assert_eq!(
        resp.messages,
        vec![BankMsg::Send { to_address: "owner".to_string(), amount: vec![Coin::new(11, "atom")] }]
    );
    assert_eq!(store, store_with(1));
}

#[test]
fn execute_wraps_a_storage_failure_of_donate() {
    let mut store = Store::new();

    let resp = execute(&mut store, call("sender", vec![]), ExecMsg::Donate {}, Ok(vec![]));

    assert_eq!(resp, Err(ContractError::Std(StdError::NotFound { key: SlotKey::State })));
    assert_eq!(ContractError::from(StdError::NotFound { key: SlotKey::State }), resp.unwrap_err());
}

#[test]
fn execute_refuses_a_stranger_and_keeps_the_store() {
    let mut store = store_with(9);

    let resp = execute(
        &mut store,
        call("member", vec![]),
        ExecMsg::Withdraw {},
        Ok(vec![Coin::new(20, "atom")]),
    );

    assert_eq!(resp, Err(ContractError::Unauthorized { owner: "owner".to_string() }));
    assert_eq!(store, store_with(9));
}

#[test]
fn donate_ignores_the_balance() {
    let mut store = store_with(0);
    let failed = StdError::GenericErr { msg: "querier unavailable".to_string() };

    let resp = execute(&mut store, call("sender", vec![]), ExecMsg::Donate {}, Err(failed));

    assert!(resp.is_ok());
}
