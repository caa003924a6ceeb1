use cosmwasm_std::Decimal;
use counting_contract::contract::{CONTRACT_NAME, CONTRACT_VERSION};
use counting_contract::error::StdError;
use counting_contract::host::{Coin, MessageInfo, Response};
use counting_contract::instantiate;
use counting_contract::msg::{InstantiateMsg, Parent};
use counting_contract::state::{
    ContractVersion, ParentDonation, Slot, State, StateRecord, Store,
};

fn message() -> InstantiateMsg {
    InstantiateMsg {
        minimal_donation: Coin::new(10, "atom"),
        parent: Some(Parent {
            addr: "parent".to_string(),
            donating_period: 12,
            part: Decimal::percent(30),
        }),
    }
}

fn caller() -> MessageInfo {
    MessageInfo { sender: "creator".to_string(), funds: vec![] }
}

#[test]
fn instantiate_writes_the_four_records() {
    let mut store = Store::new();

    let resp = instantiate(&mut store, caller(), message(), Ok("parent".to_string()));

    assert_eq!(resp, Ok(Response { messages: vec![], attributes: vec![] }));
    assert_eq!(
        store,
        Store {
            contract_info: Slot::Holds(ContractVersion {
                contract: CONTRACT_NAME.to_string(),
                version: CONTRACT_VERSION.to_string(),
            }),
            state: Slot::Holds(StateRecord::Current(State {
                counter: 0,
                minimal_donation: Coin::new(10, "atom"),
                donating_parent: 12,
            })),
            owner: Slot::Holds("creator".to_string()),
            parent_donation: Slot::Holds(ParentDonation {
                address: "parent".to_string(),
                donating_parent_period: 12,
                part: Decimal::percent(30),
            }),
            counter: Slot::Empty,
            minimal_donation: Slot::Empty,
        }
    );
}

#[test]
fn instantiate_stamps_this_contract() {
    assert_eq!(CONTRACT_NAME, "counting-contract");
    assert_eq!(CONTRACT_VERSION, "0.3.0");
}

#[test]
fn instantiate_stores_the_address_that_the_host_validated() {
    let mut store = Store::new();

    instantiate(&mut store, caller(), message(), Ok("validated".to_string())).unwrap();

    match store.parent_donation {
        Slot::Holds(parent) => assert_eq!(parent.address, "validated"),
        other => panic!("no parent configuration: {:?}", other),
    }
}

#[test]
fn instantiate_with_refused_address_writes_nothing() {
    let mut store = Store::new();
    let refusal = StdError::GenericErr { msg: "address not normalized".to_string() };

    let resp = instantiate(&mut store, caller(), message(), Err(refusal.clone()));

    assert_eq!(resp, Err(refusal));
    assert_eq!(store, Store::new());
}

#[test]
fn instantiate_keeps_the_legacy_slots() {
    let mut store = Store::new();
    store.counter = Slot::Holds(3);
    store.minimal_donation = Slot::Corrupt;

    instantiate(&mut store, caller(), message(), Ok("parent".to_string())).unwrap();

    assert_eq!(store.counter, Slot::Holds(3));
    assert_eq!(store.minimal_donation, Slot::Corrupt);
}
